use waveshaper::shape::ShapeType;

#[test]
fn index_round_trip_all_shapes() {
    for i in 0..15 {
        assert_eq!(ShapeType::from_index(i).to_index(), i);
    }
}

#[test]
fn to_index_follows_canonical_order() {
    assert_eq!(ShapeType::ARRY.to_index(), 0);
    assert_eq!(ShapeType::SIG.to_index(), 1);
    assert_eq!(ShapeType::SIG2.to_index(), 2);
    assert_eq!(ShapeType::TANH.to_index(), 3);
    assert_eq!(ShapeType::ATAN.to_index(), 4);
    assert_eq!(ShapeType::FEXP1.to_index(), 5);
    assert_eq!(ShapeType::FEXP2.to_index(), 6);
    assert_eq!(ShapeType::EXP.to_index(), 7);
    assert_eq!(ShapeType::ATSR.to_index(), 8);
    assert_eq!(ShapeType::SQS.to_index(), 9);
    assert_eq!(ShapeType::CUBE.to_index(), 10);
    assert_eq!(ShapeType::HCLIP.to_index(), 11);
    assert_eq!(ShapeType::HWR.to_index(), 12);
    assert_eq!(ShapeType::FWR.to_index(), 13);
    assert_eq!(ShapeType::ASQRT.to_index(), 14);
}

#[test]
fn from_index_selects_each_shape() {
    assert_eq!(ShapeType::from_index(0), ShapeType::ARRY);
    assert_eq!(ShapeType::from_index(1), ShapeType::SIG);
    assert_eq!(ShapeType::from_index(7), ShapeType::EXP);
    assert_eq!(ShapeType::from_index(11), ShapeType::HCLIP);
    assert_eq!(ShapeType::from_index(14), ShapeType::ASQRT);
}

#[test]
fn variants_lists_the_fifteen_display_names() {
    let names = ShapeType::variants();
    assert_eq!(
        names,
        vec![
            "arraya",
            "sigmoid",
            "sigmoid 2",
            "hyperbolic tangent",
            "arctangent",
            "fuzz exponential 1",
            "fuzz exponential 2",
            "exponential",
            "atan square root",
            "square sign",
            "cube",
            "hardclip",
            "half wave rectifier",
            "full wave rectifier",
            "absolute square root",
        ]
    );
}

#[test]
fn ids_lists_the_fifteen_identifiers() {
    let ids = ShapeType::ids();
    assert_eq!(
        ids,
        vec![
            "arry", "sig", "sig2", "tanh", "atan", "fexp1", "fexp2", "exp", "atsr", "sqs",
            "cube", "hclip", "hwr", "fwr", "asqrt",
        ]
    );
}

#[test]
fn ids_are_pairwise_distinct() {
    let ids = ShapeType::ids();
    for a in 0..ids.len() {
        for b in 0..ids.len() {
            if a != b {
                assert_ne!(ids[a], ids[b]);
            }
        }
    }
}

#[test]
fn names_align_with_ids_by_index() {
    let names = ShapeType::variants();
    let ids = ShapeType::ids();
    assert_eq!(names.len(), ids.len());
    let cube = ShapeType::CUBE.to_index();
    assert_eq!(names[cube], "cube");
    assert_eq!(ids[cube], "cube");
    let tanh = ShapeType::TANH.to_index();
    assert_eq!(names[tanh], "hyperbolic tangent");
    assert_eq!(ids[tanh], "tanh");
}
