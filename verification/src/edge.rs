//! Construction operators for edges: straight segments, unbounded lines and
//! full circles.

use vstd::prelude::*;

use crate::kernel::Kernel;
use crate::math::{Axis1, Axis3, Point};
use crate::shape::{typed_inv, typed_model, IsShape, Shape};
use crate::topo::{
    copy_node, vertex_point, view_node, view_nodes, wf, wf_children, EdgeGeom, Node, NodeModel,
    Orientation, TopoData, TopoModel,
};
use crate::transform::Transformation;
use crate::variant::{Edge, Vertex};
use crate::vertex::{make_vertex_node, vertex_node};

verus! {

/// Edge construction error.
#[derive(Clone, Copy, Debug, PartialEq, Eq, Structural, PartialOrd, Ord, Hash)]
pub enum EdgeError {
    /// No parameters were given but the projection of the 3D points on the curve failed. This happens when the point distance to the curve is greater than the precision value.
    PointProjectionFailed,
    /// The given parameters are not in the parametric range of the curve.
    ParameterOutOfRange,
    /// The two vertices or points are the extremities of a closed curve but have different locations.
    DifferentPointsOnClosedCurve,
    /// A finite coordinate point was associated with an infinite parameter.
    PointWithInfiniteParameter,
    /// The distance between the 3D point and the point evaluated on the curve with the parameter is greater than the precision.
    DifferentsPointAndParameter,
    /// Two identical points were given to define a line (construction of an edge without curve).
    LineThroughIdenticPoints,
}

/// The model of a fresh edge entity `id` with geometry `g` and boundary
/// vertices `ch`: forward orientation, identity placement.
pub open spec fn edge_node(id: u64, g: EdgeGeom, ch: Seq<NodeModel>) -> NodeModel {
    NodeModel {
        id,
        orient: Orientation::Forward,
        location: Transformation::identity(),
        data: TopoModel::Edge(g, ch),
    }
}

/// The model of the straight segment entity `id` between two fresh
/// vertices `id1` at `p1` and `id2` at `p2`.
pub open spec fn segment_node(id: u64, id1: u64, p1: Point, id2: u64, p2: Point) -> NodeModel {
    edge_node(id, EdgeGeom::Segment, seq![vertex_node(id1, p1), vertex_node(id2, p2)])
}

/// Build the edge node with geometry `g` over already built boundary
/// vertices.
pub(crate) fn make_edge_node(id: u64, g: EdgeGeom, verts: Vec<Node>) -> (n: Node)
    ensures
        view_node(n) == edge_node(id, g, view_nodes(verts@)),
{
    Node {
        id,
        orient: Orientation::Forward,
        location: Transformation::default(),
        data: TopoData::Edge(g, verts),
    }
}

impl Edge {
    /// Build the straight segment between two points, as three new kernel
    /// entities: the edge and its two boundary vertices. Fails with
    /// [`EdgeError::LineThroughIdenticPoints`] exactly when the two points
    /// coincide, and then nothing is allocated; succeeds otherwise.
    pub fn segment(kernel: &mut Kernel, p1: &Point, p2: &Point) -> (r: Result<Edge, EdgeError>)
        requires
            old(kernel).issued() + 3 < 0x1_0000_0000_0000_0000,
        ensures
            match r {
                Result::Ok(e) => *p1 != *p2 && typed_inv(e) && e.shape_view() == Option::Some(
                    segment_node(
                        old(kernel).issued() as u64,
                        (old(kernel).issued() + 1) as u64,
                        *p1,
                        (old(kernel).issued() + 2) as u64,
                        *p2,
                    ),
                ) && final(kernel).issued() == old(kernel).issued() + 3,
                Result::Err(err) => *p1 == *p2 && err == EdgeError::LineThroughIdenticPoints
                    && final(kernel).issued() == old(kernel).issued(),
            },
    {
        if *p1 == *p2 {
            return Result::Err(EdgeError::LineThroughIdenticPoints);
        }
        let id = kernel.fresh();
        let id1 = kernel.fresh();
        let id2 = kernel.fresh();
        let mut verts: Vec<Node> = Vec::new();
        verts.push(make_vertex_node(id1, p1));
        verts.push(make_vertex_node(id2, p2));
        proof {
            reveal_with_fuel(view_nodes, 3);
            assert(verts@.subrange(1, 2).subrange(1, 1) =~= Seq::<Node>::empty());
            assert(verts@.subrange(1, 2)[0] == verts@[1]);
            assert(view_nodes(verts@) =~= seq![vertex_node(id1, *p1), vertex_node(id2, *p2)]);
            reveal_with_fuel(wf, 3);
            reveal_with_fuel(wf_children, 3);
        }
        let node = make_edge_node(id, EdgeGeom::Segment, verts);
        Result::Ok(Edge::wrap(Shape::from_node(node)))
    }

    /// Build the straight segment between two existing vertices, as one new
    /// kernel entity; the given vertices themselves remain the boundary of
    /// the edge. Fails with [`EdgeError::LineThroughIdenticPoints`] exactly
    /// when their points coincide, and then nothing is allocated.
    pub fn from_vertices(kernel: &mut Kernel, v1: &Vertex, v2: &Vertex) -> (r: Result<
        Edge,
        EdgeError,
    >)
        requires
            old(kernel).issued() + 1 < 0x1_0000_0000_0000_0000,
            typed_inv(*v1),
            typed_inv(*v2),
        ensures
            match r {
                Result::Ok(e) => vertex_point(typed_model(*v1)) != vertex_point(typed_model(*v2))
                    && typed_inv(e) && e.shape_view() == Option::Some(
                    edge_node(
                        old(kernel).issued() as u64,
                        EdgeGeom::Segment,
                        seq![typed_model(*v1), typed_model(*v2)],
                    ),
                ) && final(kernel).issued() == old(kernel).issued() + 1,
                Result::Err(err) => vertex_point(typed_model(*v1)) == vertex_point(
                    typed_model(*v2),
                ) && err == EdgeError::LineThroughIdenticPoints && final(kernel).issued() == old(kernel).issued(),
            },
    {
        let p1 = v1.point();
        let p2 = v2.point();
        if p1 == p2 {
            return Result::Err(EdgeError::LineThroughIdenticPoints);
        }
        let id = kernel.fresh();
        let n1 = match v1.as_shape().node_ref() {
            Option::Some(n) => copy_node(n),
            Option::None => unreached(),
        };
        let n2 = match v2.as_shape().node_ref() {
            Option::Some(n) => copy_node(n),
            Option::None => unreached(),
        };
        let mut verts: Vec<Node> = Vec::new();
        verts.push(n1);
        verts.push(n2);
        proof {
            reveal_with_fuel(view_nodes, 3);
            assert(verts@.subrange(1, 2).subrange(1, 1) =~= Seq::<Node>::empty());
            assert(verts@.subrange(1, 2)[0] == verts@[1]);
            assert(view_nodes(verts@) =~= seq![typed_model(*v1), typed_model(*v2)]);
            reveal_with_fuel(wf, 3);
            reveal_with_fuel(wf_children, 3);
        }
        let node = make_edge_node(id, EdgeGeom::Segment, verts);
        Result::Ok(Edge::wrap(Shape::from_node(node)))
    }

    /// Build the unbounded line along an axis, as one new kernel entity.
    /// The axis direction must not vanish; the kernel model then never
    /// reports an error.
    pub fn line(kernel: &mut Kernel, axis: &Axis1) -> (r: Result<Edge, EdgeError>)
        requires
            old(kernel).issued() + 1 < 0x1_0000_0000_0000_0000,
            !axis.dir.is_zero(),
        ensures
            r matches Result::Ok(e) && typed_inv(e) && e.shape_view() == Option::Some(
                edge_node(old(kernel).issued() as u64, EdgeGeom::Line(*axis), Seq::empty()),
            ),
            final(kernel).issued() == old(kernel).issued() + 1,
    {
        let id = kernel.fresh();
        let verts: Vec<Node> = Vec::new();
        proof {
            assert(view_nodes(verts@) =~= Seq::<NodeModel>::empty());
            reveal_with_fuel(wf, 2);
            reveal_with_fuel(wf_children, 2);
        }
        let node = make_edge_node(id, EdgeGeom::Line(*axis), verts);
        Result::Ok(Edge::wrap(Shape::from_node(node)))
    }

    /// Build the full circle of a given radius at a placement, as one new
    /// kernel entity. The main direction must not vanish and the radius
    /// must be positive; the kernel model then never reports an error.
    pub fn circle(kernel: &mut Kernel, axis: &Axis3, radius: i32) -> (r: Result<Edge, EdgeError>)
        requires
            old(kernel).issued() + 1 < 0x1_0000_0000_0000_0000,
            !axis.axis.dir.is_zero(),
            radius > 0,
        ensures
            r matches Result::Ok(e) && typed_inv(e) && e.shape_view() == Option::Some(
                edge_node(
                    old(kernel).issued() as u64,
                    EdgeGeom::Circle(*axis, radius),
                    Seq::empty(),
                ),
            ),
            final(kernel).issued() == old(kernel).issued() + 1,
    {
        let id = kernel.fresh();
        let verts: Vec<Node> = Vec::new();
        proof {
            assert(view_nodes(verts@) =~= Seq::<NodeModel>::empty());
            reveal_with_fuel(wf, 2);
            reveal_with_fuel(wf_children, 2);
        }
        let node = make_edge_node(id, EdgeGeom::Circle(*axis, radius), verts);
        Result::Ok(Edge::wrap(Shape::from_node(node)))
    }
}

} // verus!
