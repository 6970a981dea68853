use brep::{
    Angle, AngleUnits, Kernel, Point, Quaternion, Transformation, TransformationForm, Vector,
    Vertex,
};

#[test]
fn default_values() {
    let mut k = Kernel::new();
    assert_eq!(Point::default(), Point::new(0, 0, 0));
    assert_eq!(Vector::default(), Vector::new(0, 0, 0));
    assert_eq!(Quaternion::default(), Quaternion::new(0, 0, 0, 1));
    assert_eq!(Vertex::new(&mut k, &Point::default()).point(), Point::new(0, 0, 0));
}

#[test]
fn angle_carries_value_and_units() {
    let a = Angle::new(90, AngleUnits::Deg);
    assert_eq!(*a.raw(), 90);
    assert_eq!(a.units(), AngleUnits::Deg);

    let b = Angle::new(-3, AngleUnits::Rad);
    assert_eq!(*b.raw(), -3);
    assert_eq!(b.units(), AngleUnits::Rad);
}

#[test]
fn transformation_defaults_to_identity() {
    let t = Transformation::default();
    assert_eq!(t.form(), TransformationForm::Identity);
    assert_eq!(t.scale_factor(), 1);
    assert_eq!(t.translation_part(), &Vector::new(0, 0, 0));
    assert_eq!(t.rotation_part(), Quaternion::new(0, 0, 0, 1));
}

#[test]
fn transformation_low_level_setters() {
    let mut t = Transformation::default();

    t.set_scale_factor(7);
    assert_eq!(t.scale_factor(), 7);
    assert_eq!(t.form(), TransformationForm::Identity);

    t.set_form(TransformationForm::CompoundTrsf);
    assert_eq!(t.form(), TransformationForm::CompoundTrsf);
    assert_eq!(t.scale_factor(), 7);

    t.set_translation_part(&Vector::new(4, 5, 6));
    assert_eq!(t.translation_part(), &Vector::new(4, 5, 6));

    t.set_rotation_part(&Quaternion::new(1, 0, 0, 0));
    assert_eq!(t.rotation_part(), Quaternion::new(1, 0, 0, 0));
    assert_eq!(t.translation_part(), &Vector::new(4, 5, 6));
}

#[test]
fn transformation_mirror() {
    let mut t = Transformation::default();
    t.set_mirror(&Point::new(1, 2, 3));
    assert_eq!(t.form(), TransformationForm::PntMirror);
    assert_eq!(t.scale_factor(), -1);
    assert_eq!(t.translation_part(), &Vector::new(2, 4, 6));
    assert_eq!(t.rotation_part(), Quaternion::new(0, 0, 0, 1));
}

#[test]
fn transformation_scale() {
    let mut t = Transformation::default();
    t.set_scale(&Point::new(1, 2, 3), 2);
    assert_eq!(t.form(), TransformationForm::Scale);
    assert_eq!(t.scale_factor(), 2);
    assert_eq!(t.translation_part(), &Vector::new(-1, -2, -3));
}

#[test]
fn transformation_translation() {
    let mut t = Transformation::default();
    t.set_scale_factor(9);
    t.set_translation(&Vector::new(7, 8, 9));
    assert_eq!(t.form(), TransformationForm::Translation);
    assert_eq!(t.scale_factor(), 1);
    assert_eq!(t.translation_part(), &Vector::new(7, 8, 9));
}
