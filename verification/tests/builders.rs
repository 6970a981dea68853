use brep::{
    Angle, AngleUnits, Axis1, Axis3, Edge, Face, FaceError, IsShape, Kernel, Point, PrimError,
    ShapeType, Vector, Vertex, Wire,
};

#[test]
fn extrude() {
    let mut k = Kernel::new();
    let v1 = Vertex::new(&mut k, &Point::new(0, 0, 0));
    let e1 = v1.extrude(&mut k, &Vector::new(0, 0, 1)).unwrap();
    let f1 = e1.extrude(&mut k, &Vector::new(0, 1, 0)).unwrap();
    let s1 = f1.extrude(&mut k, &Vector::new(1, 0, 0)).unwrap();

    assert_eq!(e1.as_shape().type_().unwrap(), ShapeType::Edge);
    assert_eq!(f1.as_shape().type_().unwrap(), ShapeType::Face);
    assert_eq!(s1.as_shape().type_().unwrap(), ShapeType::Solid);
}

#[test]
fn revolve() {
    let mut k = Kernel::new();
    let v1 = Vertex::new(&mut k, &Point::new(0, 0, 1));
    let x1 = Axis1::new(Point::new(0, 0, 0), Vector::new(0, 1, 0));
    let a1 = Angle::new(90, AngleUnits::Deg);
    let x2 = Axis1::new(Point::new(0, 0, 0), Vector::new(1, 0, 0));
    let a2 = Angle::new(360, AngleUnits::Deg);
    let e1 = v1.revolve(&mut k, &x1, &a1).unwrap();
    let f1 = e1.revolve(&mut k, &x2, &a2).unwrap();

    assert_eq!(e1.as_shape().type_().unwrap(), ShapeType::Edge);
    assert_eq!(f1.as_shape().type_().unwrap(), ShapeType::Face);
}

#[test]
fn extrude_zero_vector_fails() {
    let mut k = Kernel::new();
    let v = Vertex::new(&mut k, &Point::new(1, 1, 1));
    let r: Result<Edge, PrimError> = v.extrude(&mut k, &Vector::new(0, 0, 0));
    assert!(r.is_err());
}

#[test]
fn revolve_zero_angle_fails() {
    let mut k = Kernel::new();
    let v = Vertex::new(&mut k, &Point::new(0, 0, 1));
    let axis = Axis1::new(Point::new(0, 0, 0), Vector::new(0, 1, 0));
    let r = v.revolve(&mut k, &axis, &Angle::new(0, AngleUnits::Rad));
    assert!(r.is_err());
}

#[test]
fn extrude_wire_and_shell() {
    let mut k = Kernel::new();
    let p1 = Point::new(0, 0, 0);
    let p2 = Point::new(1, 0, 0);
    let p3 = Point::new(1, 1, 0);
    let e1 = Edge::segment(&mut k, &p1, &p2).unwrap();
    let e2 = Edge::segment(&mut k, &p2, &p3).unwrap();
    let w = Wire::from_edges(&mut k, &vec![e1, e2]).unwrap();

    let shell = w.extrude(&mut k, &Vector::new(0, 0, 2)).unwrap();
    assert_eq!(shell.as_shape().type_().unwrap(), ShapeType::Shell);

    let comp = shell.extrude(&mut k, &Vector::new(0, 0, 3)).unwrap();
    assert_eq!(comp.as_shape().type_().unwrap(), ShapeType::Compsolid);
}

#[test]
fn edge_from_vertices() {
    let mut k = Kernel::new();
    let v1 = Vertex::new(&mut k, &Point::new(0, 0, 0));
    let v2 = Vertex::new(&mut k, &Point::new(0, 4, 0));

    let e = Edge::from_vertices(&mut k, &v1, &v2).unwrap();
    assert_eq!(e.as_shape().type_().unwrap(), ShapeType::Edge);

    let bad = Edge::from_vertices(&mut k, &v1, &v1);
    assert!(bad.is_err());
}

#[test]
fn line_and_circle_edges() {
    let mut k = Kernel::new();
    let axis = Axis1::new(Point::new(0, 0, 0), Vector::new(1, 0, 0));
    let line = Edge::line(&mut k, &axis).unwrap();
    assert_eq!(line.as_shape().type_().unwrap(), ShapeType::Edge);

    let frame = Axis3::new(
        Axis1::new(Point::new(0, 0, 0), Vector::new(0, 0, 1)),
        Vector::new(0, 1, 0),
        Vector::new(1, 0, 0),
    );
    let circle = Edge::circle(&mut k, &frame, 5).unwrap();
    assert_eq!(circle.as_shape().type_().unwrap(), ShapeType::Edge);

    let mut t = circle.as_shape().traverse::<Vertex>();
    assert_eq!(t.len(), 0);
    assert!(t.next().is_none());
}

#[test]
fn face_from_wires() {
    let mut k = Kernel::new();
    let p1 = Point::new(0, 0, 0);
    let p2 = Point::new(2, 0, 0);
    let p3 = Point::new(2, 2, 0);
    let e1 = Edge::segment(&mut k, &p1, &p2).unwrap();
    let e2 = Edge::segment(&mut k, &p2, &p3).unwrap();
    let e3 = Edge::segment(&mut k, &p3, &p1).unwrap();
    let w = Wire::from_edges(&mut k, &vec![e1, e2, e3]).unwrap();

    let f = Face::from_wires(&mut k, &vec![w]).unwrap();
    assert_eq!(f.as_shape().type_().unwrap(), ShapeType::Face);
}

#[test]
fn face_requires_a_wire() {
    let mut k = Kernel::new();
    let empty: Vec<Wire> = vec![];
    let r = Face::from_wires(&mut k, &empty);
    if let Err(e) = r {
        assert_eq!(e, FaceError::NoFace);
    } else {
        panic!("Error expected");
    }
}

#[test]
fn face_rejects_non_planar_wire() {
    let mut k = Kernel::new();
    let o = Point::new(0, 0, 0);
    let a = Point::new(1, 0, 0);
    let b = Point::new(0, 1, 0);
    let c = Point::new(0, 0, 1);
    let e1 = Edge::segment(&mut k, &o, &a).unwrap();
    let e2 = Edge::segment(&mut k, &a, &b).unwrap();
    let e3 = Edge::segment(&mut k, &b, &c).unwrap();
    let w = Wire::from_edges(&mut k, &vec![e1, e2, e3]).unwrap();

    let r = Face::from_wires(&mut k, &vec![w]);
    if let Err(e) = r {
        assert_eq!(e, FaceError::NotPlanar);
    } else {
        panic!("Error expected");
    }
}

#[test]
fn face_accepts_collinear_boundary() {
    let mut k = Kernel::new();
    let p1 = Point::new(0, 0, 0);
    let p2 = Point::new(1, 0, 0);
    let p3 = Point::new(2, 0, 0);
    let e1 = Edge::segment(&mut k, &p1, &p2).unwrap();
    let e2 = Edge::segment(&mut k, &p2, &p3).unwrap();
    let w = Wire::from_edges(&mut k, &vec![e1, e2]).unwrap();

    assert!(Face::from_wires(&mut k, &vec![w]).is_ok());
}
