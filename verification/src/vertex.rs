//! Construction and queries for vertices.

use vstd::prelude::*;

use crate::kernel::Kernel;
use crate::math::Point;
use crate::shape::{typed_inv, typed_model, IsShape, Shape};
use crate::topo::{vertex_point, Node, NodeModel, Orientation, TopoData, TopoModel};
use crate::transform::Transformation;
use crate::variant::Vertex;

verus! {

/// The model of a freshly built vertex entity `id` at `p`: forward
/// orientation, identity placement.
pub open spec fn vertex_node(id: u64, p: Point) -> NodeModel {
    NodeModel {
        id,
        orient: Orientation::Forward,
        location: Transformation::identity(),
        data: TopoModel::Vertex(p),
    }
}

/// Build the topology node of a fresh vertex.
pub(crate) fn make_vertex_node(id: u64, p: &Point) -> (n: Node)
    ensures
        crate::topo::view_node(n) == vertex_node(id, *p),
{
    Node {
        id,
        orient: Orientation::Forward,
        location: Transformation::default(),
        data: TopoData::Vertex(*p),
    }
}

impl Vertex {
    /// Build a vertex at a point, as a new kernel entity; vertex
    /// construction never fails.
    pub fn new(kernel: &mut Kernel, p: &Point) -> (v: Vertex)
        requires
            old(kernel).issued() + 1 < 0x1_0000_0000_0000_0000,
        ensures
            typed_inv(v),
            v.shape_view() == Option::Some(vertex_node(old(kernel).issued() as u64, *p)),
            final(kernel).issued() == old(kernel).issued() + 1,
    {
        let id = kernel.fresh();
        Vertex::wrap(Shape::from_node(make_vertex_node(id, p)))
    }

    /// The coordinates of the vertex.
    pub fn point(&self) -> (r: Point)
        requires
            typed_inv(*self),
        ensures
            r == vertex_point(typed_model(*self)),
    {
        match self.as_shape().node_ref() {
            Option::Some(n) => match &n.data {
                TopoData::Vertex(p) => *p,
                _ => unreached(),
            },
            Option::None => unreached(),
        }
    }
}

} // verus!
