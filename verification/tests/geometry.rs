use text_view::{ContentPoint, Point, Transform};

#[test]
fn round_trip_through_inverse_and_forward() {
    let t = Transform { scale: 3, tx: 5, ty: -7 };
    let p = Point { x: 10, y: 20 };
    let c = t.inverse_transform_point(&p).expect("non-singular transform inverts");
    assert_eq!(c, ContentPoint { x_num: 5, y_num: 27, den: 3 });
    let back = t.transform_point(&c).expect("scaled fraction is whole");
    assert_eq!(back, p);
}

#[test]
fn round_trip_at_negative_coordinates() {
    let t = Transform { scale: 7, tx: -100, ty: 3 };
    let p = Point { x: -41, y: -1 };
    let c = t.inverse_transform_point(&p).unwrap();
    assert_eq!(t.transform_point(&c), Some(p));
}

#[test]
fn singular_transform_inverts_to_nothing() {
    let t = Transform { scale: 0, tx: 5, ty: 5 };
    let p = Point { x: 1, y: 2 };
    assert_eq!(t.inverse_transform_point(&p), None);
}

#[test]
fn forward_fails_on_fractional_result() {
    let t = Transform { scale: 2, tx: 0, ty: 0 };
    let c = ContentPoint { x_num: 1, y_num: 1, den: 3 };
    assert_eq!(t.transform_point(&c), None);
}

#[test]
fn identity_maps_point_to_itself() {
    let t = Transform::identity();
    let p = Point { x: 42, y: -13 };
    let c = t.inverse_transform_point(&p).unwrap();
    assert_eq!(c, ContentPoint { x_num: 42, y_num: -13, den: 1 });
    assert_eq!(t.transform_point(&c), Some(p));
}
