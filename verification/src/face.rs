//! The face builder: wires accumulate into a face; with no surface given,
//! the outer wire's boundary must lie in one plane.

use vstd::prelude::*;

use crate::geom::{coplanar, coplanar_check};
use crate::kernel::Kernel;
use crate::math::Point;
use crate::shape::{typed_inv, typed_model, IsShape, Shape};
use crate::topo::{
    children_of, copy_node, kind_of, lemma_view_nodes_index, lemma_view_nodes_len, view_node,
    view_nodes, wf, wf_children, Node, NodeModel, Orientation, ShapeType, TopoData, TopoModel,
};
use crate::transform::Transformation;
use crate::variant::{Face, Wire};
use crate::wire::{append_points, edge_node_points, edges_points};

verus! {

/// Face construction error.
#[derive(Clone, Copy, Debug, PartialEq, Eq, Structural, PartialOrd, Ord, Hash)]
pub enum FaceError {
    /// No initialization of the algorithm: no wire was given.
    NoFace,
    /// No surface was given and the wire was not planar.
    NotPlanar,
    /// Not used so far.
    CurveProjectionFailed,
    /// The parameters given to limit the surface are out of its bounds.
    ParametersOutOfRange,
}

/// The boundary points of a wire model: the points of its edges, in order.
pub open spec fn wire_points(m: NodeModel) -> Seq<Point> {
    edges_points(children_of(m))
}

/// The face builder's verdict on a list of wires: no wire at all gives
/// [`FaceError::NoFace`]; an outer (first) wire whose boundary points lie
/// in no single plane gives [`FaceError::NotPlanar`], since no surface is
/// given; otherwise the face is built.
pub open spec fn face_verdict(wires: Seq<NodeModel>) -> Result<(), FaceError> {
    if wires.len() == 0 {
        Result::Err(FaceError::NoFace)
    } else if !coplanar(wire_points(wires[0])) {
        Result::Err(FaceError::NotPlanar)
    } else {
        Result::Ok(())
    }
}

/// The model of a fresh face entity `id` over the given wires: forward
/// orientation, identity placement.
pub open spec fn face_node(id: u64, wires: Seq<NodeModel>) -> NodeModel {
    NodeModel {
        id,
        orient: Orientation::Forward,
        location: Transformation::identity(),
        data: TopoModel::Face(wires),
    }
}

/// The boundary points of one wire node, in order.
pub(crate) fn wire_node_points(node: &Node) -> (r: Vec<Point>)
    requires
        wf(view_node(*node)),
        kind_of(view_node(*node)) == ShapeType::Wire,
    ensures
        r@ == wire_points(view_node(*node)),
{
    let ghost m = view_node(*node);
    match &node.data {
        TopoData::Wire(ch) => {
            proof {
                lemma_view_nodes_len(ch@);
                reveal_with_fuel(wf, 2);
                reveal_with_fuel(wf_children, 2);
                assert(view_nodes(ch@).take(0) =~= Seq::<NodeModel>::empty());
            }
            let n = ch.len();
            let mut r: Vec<Point> = Vec::new();
            for i in 0..n
                invariant
                    n == ch@.len(),
                    view_nodes(ch@).len() == n,
                    children_of(m) == view_nodes(ch@),
                    wf(m),
                    kind_of(m) == ShapeType::Wire,
                    r@ == edges_points(view_nodes(ch@).take(i as int)),
            {
                let ghost taken = view_nodes(ch@).take(i as int);
                proof {
                    lemma_view_nodes_index(ch@, i as int);
                    reveal_with_fuel(wf, 2);
                    reveal_with_fuel(wf_children, 2);
                    assert(wf(view_nodes(ch@)[i as int]) && kind_of(view_nodes(ch@)[i as int])
                        == ShapeType::Edge);
                }
                let ep = edge_node_points(&ch[i]);
                append_points(&mut r, &ep);
                proof {
                    assert(view_nodes(ch@).take(i + 1).drop_last() =~= taken);
                    assert(view_nodes(ch@).take(i + 1).last() == view_nodes(ch@)[i as int]);
                }
            }
            proof {
                assert(view_nodes(ch@).take(n as int) =~= view_nodes(ch@));
            }
            r
        },
        _ => unreached(),
    }
}

impl Face {
    /// Accumulate the given wires into a face, as one new kernel entity;
    /// the given wires themselves become its boundary.
    ///
    /// The verdict is exactly [`face_verdict`] over the wires' models: no
    /// wire gives [`FaceError::NoFace`]; an outer wire whose boundary lies
    /// in no single plane gives [`FaceError::NotPlanar`]; on failure
    /// nothing is allocated.
    pub fn from_wires(kernel: &mut Kernel, wires: &Vec<Wire>) -> (r: Result<Face, FaceError>)
        requires
            old(kernel).issued() + 1 < 0x1_0000_0000_0000_0000,
            forall|i: int| 0 <= i < wires@.len() ==> typed_inv(#[trigger] wires@[i]),
        ensures
            ({
                let ms = wires@.map_values(|w: Wire| typed_model(w));
                match r {
                    Result::Ok(f) => face_verdict(ms) is Ok && typed_inv(f) && f.shape_view()
                        == Option::Some(face_node(old(kernel).issued() as u64, ms)) && final(kernel).issued() == old(kernel).issued() + 1,
                    Result::Err(err) => face_verdict(ms) == Result::<(), FaceError>::Err(err)
                        && final(kernel).issued() == old(kernel).issued(),
                }
            }),
    {
        let ghost ms = wires@.map_values(|w: Wire| typed_model(w));
        let n_wires = wires.len();
        if n_wires == 0 {
            return Result::Err(FaceError::NoFace);
        }
        let pts = match wires[0].as_shape().node_ref() {
            Option::Some(n) => wire_node_points(n),
            Option::None => unreached(),
        };
        if !coplanar_check(&pts) {
            return Result::Err(FaceError::NotPlanar);
        }
        let mut children: Vec<Node> = Vec::new();
        for i in 0..n_wires
            invariant
                n_wires == wires@.len(),
                ms == wires@.map_values(|w: Wire| typed_model(w)),
                forall|j: int| 0 <= j < wires@.len() ==> typed_inv(#[trigger] wires@[j]),
                children@.len() == i,
                forall|j: int| 0 <= j < i ==> view_node(#[trigger] children@[j]) == ms[j],
        {
            let c = match wires[i].as_shape().node_ref() {
                Option::Some(n) => copy_node(n),
                Option::None => unreached(),
            };
            children.push(c);
        }
        proof {
            lemma_view_nodes_len(children@);
            assert forall|j: int| 0 <= j < n_wires implies view_nodes(children@)[j] == ms[j] by {
                lemma_view_nodes_index(children@, j);
            }
            assert(view_nodes(children@) =~= ms);
            reveal_with_fuel(wf, 2);
            reveal_with_fuel(wf_children, 2);
        }
        let id = kernel.fresh();
        let node = Node {
            id,
            orient: Orientation::Forward,
            location: Transformation::default(),
            data: TopoData::Face(children),
        };
        Result::Ok(Face::wrap(Shape::from_node(node)))
    }
}

} // verus!
