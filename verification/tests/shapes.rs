use brep::{
    Edge, EdgeError, IsShape, Kernel, Orientation, Point, Shape, ShapeType, Transformation,
    TransformationForm, Vector, Vertex, Wire, WireError,
};

#[test]
fn vertex() {
    let mut k = Kernel::new();
    let p = Point::new(0, 0, 0);
    let v = Vertex::new(&mut k, &p);

    assert_eq!(v.as_shape().type_().unwrap(), ShapeType::Vertex);
    assert_eq!(v.point(), p);
}

#[test]
fn edge() {
    let mut k = Kernel::new();
    let p1 = Point::new(0, 0, 0);
    let p2 = Point::new(1, 0, 0);

    let e1 = Edge::segment(&mut k, &p1, &p2);
    let e2 = Edge::segment(&mut k, &p1, &p1);

    let e1 = e1.unwrap();
    if let Err(e) = e2 {
        assert_eq!(e, EdgeError::LineThroughIdenticPoints);
    } else {
        panic!("Error expected");
    }

    assert_eq!(e1.as_shape().type_().unwrap(), ShapeType::Edge);
    assert_eq!(e1.as_shape().orientation(), Orientation::Forward);

    let mut t1 = e1.as_shape().traverse::<Vertex>();
    assert_eq!(t1.next().unwrap().get().point(), p1);
    assert_eq!(t1.next().unwrap().get().point(), p2);
    assert!(t1.next().is_none());
}

#[test]
fn wire() {
    let mut k = Kernel::new();
    let p1 = Point::new(0, 0, 0);
    let p2 = Point::new(1, 0, 0);
    let p3 = Point::new(0, 1, 0);
    let p4 = Point::new(-1, 1, 0);
    let p5 = Point::new(1, -1, 0);

    let e1 = Edge::segment(&mut k, &p1, &p2).unwrap();
    let e2 = Edge::segment(&mut k, &p2, &p3).unwrap();
    let e3 = Edge::segment(&mut k, &p4, &p5).unwrap();

    let w1 = Wire::from_edges(&mut k, &vec![e1.duplicate()]);
    let w2 = Wire::from_edges(&mut k, &vec![e1.duplicate(), e2.duplicate()]);
    let empty: Vec<Edge> = vec![];
    let w3 = Wire::from_edges(&mut k, &empty);
    let w4 = Wire::from_edges(&mut k, &vec![e1.duplicate(), e3.duplicate()]);

    let w1 = w1.unwrap();
    let w2 = w2.unwrap();
    if let Err(e) = w3 {
        assert_eq!(e, WireError::EmptyWire);
    } else {
        panic!("Error expected");
    }
    if let Err(e) = w4 {
        assert_eq!(e, WireError::DisconnectedWire);
    } else {
        panic!("Error expected");
    }

    assert_eq!(w1.as_shape().type_().unwrap(), ShapeType::Wire);
    assert_eq!(w1.as_shape().orientation(), Orientation::Forward);
    assert_eq!(w2.as_shape().type_().unwrap(), ShapeType::Wire);

    let mut t1 = w1.as_shape().traverse::<Edge>();
    let e1 = t1.next().unwrap();
    assert!(t1.next().is_none());
    let mut t1 = e1.get().as_shape().traverse::<Vertex>();
    assert_eq!(t1.next().unwrap().get().point(), p1);
    assert_eq!(t1.next().unwrap().get().point(), p2);
    assert!(t1.next().is_none());
}

#[test]
fn non_manifold_wire() {
    let mut k = Kernel::new();
    let a = Point::new(0, 0, 0);
    let b = Point::new(1, 0, 0);
    let c = Point::new(1, 1, 0);
    let d = Point::new(1, -1, 0);

    let e1 = Edge::segment(&mut k, &a, &b).unwrap();
    let e2 = Edge::segment(&mut k, &b, &c).unwrap();
    let e3 = Edge::segment(&mut k, &b, &d).unwrap();

    let w = Wire::from_edges(&mut k, &vec![e1, e2, e3]);
    if let Err(e) = w {
        assert_eq!(e, WireError::NonManifoldWire);
    } else {
        panic!("Error expected");
    }
}

#[test]
fn null_shape() {
    let s = Shape::default();
    assert!(s.is_null());
    assert_eq!(s.type_(), None);

    let mut t = s.traverse::<Vertex>();
    assert_eq!(t.len(), 0);
    assert!(t.next().is_none());
}

#[test]
fn widen_narrow_round_trip() {
    let mut k = Kernel::new();
    let p1 = Point::new(0, 0, 0);
    let p2 = Point::new(2, 3, 4);
    let e = Edge::segment(&mut k, &p1, &p2).unwrap();
    let orient = e.as_shape().orientation();

    let s = e.widen();
    assert_eq!(s.type_().unwrap(), ShapeType::Edge);

    let back = Edge::narrow(s).unwrap();
    assert_eq!(back.as_shape().type_().unwrap(), ShapeType::Edge);
    assert_eq!(back.as_shape().orientation(), orient);
}

#[test]
fn narrow_rejects_wrong_kind() {
    let mut k = Kernel::new();
    let p1 = Point::new(0, 0, 0);
    let p2 = Point::new(1, 0, 0);
    let e = Edge::segment(&mut k, &p1, &p2).unwrap();

    let s = e.widen();
    assert!(Vertex::narrow(s).is_err());

    let v = Vertex::new(&mut k, &p1);
    assert!(Wire::narrow(v.widen()).is_err());

    assert!(Edge::narrow(Shape::default()).is_err());
}

#[test]
fn traversal_complete_and_unique() {
    let mut k = Kernel::new();
    let p1 = Point::new(0, 0, 0);
    let p2 = Point::new(1, 0, 0);
    let p3 = Point::new(0, 1, 0);

    let e1 = Edge::segment(&mut k, &p1, &p2).unwrap();
    let e2 = Edge::segment(&mut k, &p2, &p3).unwrap();
    let w = Wire::from_edges(&mut k, &vec![e1, e2]).unwrap();

    let mut tv = w.as_shape().traverse::<Vertex>();
    assert_eq!(tv.len(), 3);
    let q1 = tv.next().unwrap().get().point();
    let q2 = tv.next().unwrap().get().point();
    let q3 = tv.next().unwrap().get().point();
    assert!(tv.next().is_none());
    assert_eq!(q1, p1);
    assert_eq!(q2, p2);
    assert_eq!(q3, p3);

    let mut te = w.as_shape().traverse::<Edge>();
    assert_eq!(te.len(), 2);
    let f1 = te.next().unwrap();
    let f2 = te.next().unwrap();
    assert!(te.next().is_none());

    let mut t1 = f1.get().as_shape().traverse::<Vertex>();
    assert_eq!(t1.next().unwrap().get().point(), p1);
    assert_eq!(t1.next().unwrap().get().point(), p2);
    let mut t2 = f2.get().as_shape().traverse::<Vertex>();
    assert_eq!(t2.next().unwrap().get().point(), p2);
    assert_eq!(t2.next().unwrap().get().point(), p3);
}

#[test]
fn shared_vertex_is_one_entity() {
    let mut k = Kernel::new();
    let p1 = Point::new(0, 0, 0);
    let p2 = Point::new(1, 0, 0);
    let p3 = Point::new(0, 1, 0);

    let e1 = Edge::segment(&mut k, &p1, &p2).unwrap();
    let e2 = Edge::segment(&mut k, &p2, &p3).unwrap();
    let w = Wire::from_edges(&mut k, &vec![e1, e2]).unwrap();

    // the wire's two edges share their middle vertex as one sewn entity
    let mut te = w.as_shape().traverse::<Edge>();
    let f1 = te.next().unwrap();
    let f2 = te.next().unwrap();
    let mut t1 = f1.get().as_shape().traverse::<Vertex>();
    t1.next().unwrap();
    let shared1 = t1.next().unwrap();
    let mut t2 = f2.get().as_shape().traverse::<Vertex>();
    let shared2 = t2.next().unwrap();
    assert!(shared1.get().as_shape() == shared2.get().as_shape());
}

#[test]
fn shape_equality() {
    let mut k = Kernel::new();
    let p = Point::new(1, 2, 3);
    let v1 = Vertex::new(&mut k, &p);
    let v2 = Vertex::new(&mut k, &p);

    // independently built entities differ, even with identical geometry
    assert!(v1.duplicate().widen() != v2.widen());
    // a handle copy refers to the same entity
    assert!(v1.duplicate().widen() == v1.duplicate().widen());
    assert!(Shape::default() == Shape::default());
    assert!(Shape::default() != v1.widen());
}

#[test]
fn equality_follows_placement() {
    let mut k = Kernel::new();
    let v = Vertex::new(&mut k, &Point::new(0, 0, 0));
    let s1 = v.duplicate().widen();
    let mut s2 = v.widen();

    assert!(s1 == s2);
    let mut t = Transformation::default();
    t.set_translation(&Vector::new(1, 0, 0));
    s2.set_transformation(&t);
    // same entity at another location no longer compares equal
    assert!(s1 != s2);
}

#[test]
fn orientation_and_placement() {
    let mut k = Kernel::new();
    let v = Vertex::new(&mut k, &Point::new(0, 0, 0));
    let mut s = v.widen();

    assert_eq!(s.orientation(), Orientation::Forward);
    s.set_orientation(Orientation::Reversed);
    assert_eq!(s.orientation(), Orientation::Reversed);
    assert_eq!(s.type_().unwrap(), ShapeType::Vertex);

    assert_eq!(*s.transformation(), Transformation::default());
    let mut t = Transformation::default();
    t.set_translation(&Vector::new(1, 2, 3));
    s.set_transformation(&t);
    assert_eq!(s.transformation().translation_part(), &Vector::new(1, 2, 3));
    assert_eq!(s.transformation().form(), TransformationForm::Translation);
}

#[test]
fn duplicate_preserves_shape() {
    let mut k = Kernel::new();
    let p1 = Point::new(0, 0, 0);
    let p2 = Point::new(5, 5, 5);
    let e = Edge::segment(&mut k, &p1, &p2).unwrap();
    let d = e.duplicate();
    assert!(e.widen() == d.widen());
}
