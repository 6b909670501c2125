use vstd::prelude::*;

verus! {

/// A transfer-function shape: one of the fifteen nonlinearities the
/// waveshaper can dispatch to. A value carries nothing besides its identity;
/// the control layer selects one atomically and the processing loop reads it
/// once per block.
#[derive(Clone, Copy, PartialEq, Eq, Structural, Debug)]
pub enum ShapeType {
    ARRY,
    SIG,
    SIG2,
    TANH,
    ATAN,
    FEXP1,
    FEXP2,
    EXP,
    ATSR,
    SQS,
    CUBE,
    HCLIP,
    HWR,
    FWR,
    ASQRT,
}

/// How many shapes the closed enumeration holds.
pub const NUM_SHAPES: usize = 15;

/// The position of a shape in the canonical ordering, the one the control
/// layer uses for discrete parameter values.
pub open spec fn shape_index(s: ShapeType) -> int {
    match s {
        ShapeType::ARRY => 0,
        ShapeType::SIG => 1,
        ShapeType::SIG2 => 2,
        ShapeType::TANH => 3,
        ShapeType::ATAN => 4,
        ShapeType::FEXP1 => 5,
        ShapeType::FEXP2 => 6,
        ShapeType::EXP => 7,
        ShapeType::ATSR => 8,
        ShapeType::SQS => 9,
        ShapeType::CUBE => 10,
        ShapeType::HCLIP => 11,
        ShapeType::HWR => 12,
        ShapeType::FWR => 13,
        ShapeType::ASQRT => 14,
    }
}

/// The shape standing at a position of the canonical ordering.
pub open spec fn shape_of_index(i: int) -> ShapeType {
    if i == 0 {
        ShapeType::ARRY
    } else if i == 1 {
        ShapeType::SIG
    } else if i == 2 {
        ShapeType::SIG2
    } else if i == 3 {
        ShapeType::TANH
    } else if i == 4 {
        ShapeType::ATAN
    } else if i == 5 {
        ShapeType::FEXP1
    } else if i == 6 {
        ShapeType::FEXP2
    } else if i == 7 {
        ShapeType::EXP
    } else if i == 8 {
        ShapeType::ATSR
    } else if i == 9 {
        ShapeType::SQS
    } else if i == 10 {
        ShapeType::CUBE
    } else if i == 11 {
        ShapeType::HCLIP
    } else if i == 12 {
        ShapeType::HWR
    } else if i == 13 {
        ShapeType::FWR
    } else {
        ShapeType::ASQRT
    }
}

/// The display name of a shape.
pub open spec fn shape_name(s: ShapeType) -> Seq<char> {
    match s {
        ShapeType::ARRY => "arraya"@,
        ShapeType::SIG => "sigmoid"@,
        ShapeType::SIG2 => "sigmoid 2"@,
        ShapeType::TANH => "hyperbolic tangent"@,
        ShapeType::ATAN => "arctangent"@,
        ShapeType::FEXP1 => "fuzz exponential 1"@,
        ShapeType::FEXP2 => "fuzz exponential 2"@,
        ShapeType::EXP => "exponential"@,
        ShapeType::ATSR => "atan square root"@,
        ShapeType::SQS => "square sign"@,
        ShapeType::CUBE => "cube"@,
        ShapeType::HCLIP => "hardclip"@,
        ShapeType::HWR => "half wave rectifier"@,
        ShapeType::FWR => "full wave rectifier"@,
        ShapeType::ASQRT => "absolute square root"@,
    }
}

/// The stable identifier of a shape, the one hosts persist.
pub open spec fn shape_id(s: ShapeType) -> Seq<char> {
    match s {
        ShapeType::ARRY => "arry"@,
        ShapeType::SIG => "sig"@,
        ShapeType::SIG2 => "sig2"@,
        ShapeType::TANH => "tanh"@,
        ShapeType::ATAN => "atan"@,
        ShapeType::FEXP1 => "fexp1"@,
        ShapeType::FEXP2 => "fexp2"@,
        ShapeType::EXP => "exp"@,
        ShapeType::ATSR => "atsr"@,
        ShapeType::SQS => "sqs"@,
        ShapeType::CUBE => "cube"@,
        ShapeType::HCLIP => "hclip"@,
        ShapeType::HWR => "hwr"@,
        ShapeType::FWR => "fwr"@,
        ShapeType::ASQRT => "asqrt"@,
    }
}

impl ShapeType {
    /// The display names, one per shape, in canonical order.
    pub fn variants() -> (r: Vec<&'static str>)
        ensures
            r@.len() == NUM_SHAPES,
            forall|i: int|
                #![trigger r@[i]]
                0 <= i < NUM_SHAPES ==> r@[i]@ == shape_name(shape_of_index(i)),
    {
        let mut r: Vec<&'static str> = Vec::new();
        r.push("arraya");
        r.push("sigmoid");
        r.push("sigmoid 2");
        r.push("hyperbolic tangent");
        r.push("arctangent");
        r.push("fuzz exponential 1");
        r.push("fuzz exponential 2");
        r.push("exponential");
        r.push("atan square root");
        r.push("square sign");
        r.push("cube");
        r.push("hardclip");
        r.push("half wave rectifier");
        r.push("full wave rectifier");
        r.push("absolute square root");
        r
    }

    /// The stable identifiers, one per shape, in canonical order.
    pub fn ids() -> (r: Vec<&'static str>)
        ensures
            r@.len() == NUM_SHAPES,
            forall|i: int|
                #![trigger r@[i]]
                0 <= i < NUM_SHAPES ==> r@[i]@ == shape_id(shape_of_index(i)),
    {
        let mut r: Vec<&'static str> = Vec::new();
        r.push("arry");
        r.push("sig");
        r.push("sig2");
        r.push("tanh");
        r.push("atan");
        r.push("fexp1");
        r.push("fexp2");
        r.push("exp");
        r.push("atsr");
        r.push("sqs");
        r.push("cube");
        r.push("hclip");
        r.push("hwr");
        r.push("fwr");
        r.push("asqrt");
        r
    }

    /// The index of this shape in the canonical ordering.
    pub fn to_index(self) -> (r: usize)
        ensures
            r == shape_index(self),
            r < NUM_SHAPES,
            shape_of_index(r as int) == self,
    {
        match self {
            ShapeType::ARRY => 0,
            ShapeType::SIG => 1,
            ShapeType::SIG2 => 2,
            ShapeType::TANH => 3,
            ShapeType::ATAN => 4,
            ShapeType::FEXP1 => 5,
            ShapeType::FEXP2 => 6,
            ShapeType::EXP => 7,
            ShapeType::ATSR => 8,
            ShapeType::SQS => 9,
            ShapeType::CUBE => 10,
            ShapeType::HCLIP => 11,
            ShapeType::HWR => 12,
            ShapeType::FWR => 13,
            ShapeType::ASQRT => 14,
        }
    }

    /// The shape at a given index of the canonical ordering. An index at or
    /// beyond `NUM_SHAPES` selects no shape; it is a defect in the caller,
    /// so it is ruled out here rather than handled at run time.
    pub fn from_index(index: usize) -> (r: Self)
        requires
            index < NUM_SHAPES,
        ensures
            r == shape_of_index(index as int),
            shape_index(r) == index,
    {
        match index {
            0 => ShapeType::ARRY,
            1 => ShapeType::SIG,
            2 => ShapeType::SIG2,
            3 => ShapeType::TANH,
            4 => ShapeType::ATAN,
            5 => ShapeType::FEXP1,
            6 => ShapeType::FEXP2,
            7 => ShapeType::EXP,
            8 => ShapeType::ATSR,
            9 => ShapeType::SQS,
            10 => ShapeType::CUBE,
            11 => ShapeType::HCLIP,
            12 => ShapeType::HWR,
            13 => ShapeType::FWR,
            _ => ShapeType::ASQRT,
        }
    }
}

} // verus!
