//! The concrete model of kernel-side topology.
//!
//! A shape is a tree: a vertex carries a point; an edge carries its curve
//! geometry and its boundary vertices; a wire carries edges; a face carries
//! wires; a shell faces; a solid shells; a composite solid solids; a
//! compound arbitrary shapes. Every node also carries an orientation tag and
//! an affine placement.
//!
//! Exec code works on [`Node`] (whose children live in `Vec`s); contracts
//! speak about the ghost mirror [`NodeModel`] (whose children live in
//! `Seq`s), reached through the view functions defined here.

use vstd::prelude::*;

use crate::math::{Angle, Axis1, Axis3, Point};
use crate::transform::Transformation;

verus! {

/// The kind of a shape.
#[derive(Clone, Copy, Debug, PartialEq, Eq, Structural, PartialOrd, Ord, Hash)]
pub enum ShapeType {
    /// A group of any of the shapes below.
    Compound,
    /// A set of solids connected by their faces. This expands the notions of WIRE and SHELL to solids.
    Compsolid,
    /// A part of 3D space bounded by shells.
    Solid,
    /// A set of faces connected by some of the edges of their wire boundaries. A shell can be open or closed.
    Shell,
    /// Part of a plane (in 2D geometry) or a surface (in 3D geometry) bounded by a closed wire. Its geometry is constrained (trimmed) by contours.
    Face,
    /// A sequence of edges connected by their vertices. It can be open or closed depending on whether the edges are linked or not.
    Wire,
    /// A single dimensional shape corresponding to a curve, and bound by a vertex at each extremity.
    Edge,
    /// A zero-dimensional shape corresponding to a point in geometry.
    Vertex,
}

/// The orientation of a shape.
#[derive(Clone, Copy, Debug, PartialEq, Eq, Structural, PartialOrd, Ord, Hash)]
pub enum Orientation {
    /// Left-to-right edge direction
    Forward,
    /// Right-to-left edge direction
    Reversed,
    /// Internal volume of solid
    Internal,
    /// External volume of solid
    External,
}

/// The curve geometry an edge is built on.
#[derive(Clone, Copy, Debug, PartialEq, Eq, Structural)]
pub enum EdgeGeom {
    /// A straight segment between the edge's two boundary vertices.
    Segment,
    /// An unbounded straight line along an axis; no boundary vertices.
    Line(Axis1),
    /// A full circle at a placement, with a radius; closed, no boundary vertices.
    Circle(Axis3, i32),
    /// The arc swept when a vertex is revolved about an axis by an angle;
    /// its single boundary vertex is the generator.
    Arc(Axis1, Angle),
}

/// One node of the concrete topology tree. The `id` is the identity of
/// the kernel-side entity the node stands for: handle copies keep it, and
/// construction stamps a fresh one.
pub(crate) struct Node {
    pub id: u64,
    pub orient: Orientation,
    pub location: Transformation,
    pub data: TopoData,
}

/// The kind-specific payload of a [`Node`]: its geometry and its children.
pub(crate) enum TopoData {
    Vertex(Point),
    Edge(EdgeGeom, Vec<Node>),
    Wire(Vec<Node>),
    Face(Vec<Node>),
    Shell(Vec<Node>),
    Solid(Vec<Node>),
    CompSolid(Vec<Node>),
    Compound(Vec<Node>),
}

/// The ghost mirror of a [`Node`].
#[verifier::ext_equal]
pub struct NodeModel {
    pub id: u64,
    pub orient: Orientation,
    pub location: Transformation,
    pub data: TopoModel,
}

/// The ghost mirror of a node's payload.
#[verifier::ext_equal]
pub enum TopoModel {
    Vertex(Point),
    Edge(EdgeGeom, Seq<NodeModel>),
    Wire(Seq<NodeModel>),
    Face(Seq<NodeModel>),
    Shell(Seq<NodeModel>),
    Solid(Seq<NodeModel>),
    CompSolid(Seq<NodeModel>),
    Compound(Seq<NodeModel>),
}

pub(crate) open spec fn view_node(n: Node) -> NodeModel
    decreases n,
{
    NodeModel { id: n.id, orient: n.orient, location: n.location, data: view_data(n.data) }
}

pub(crate) open spec fn view_data(d: TopoData) -> TopoModel
    decreases d,
{
    match d {
        TopoData::Vertex(p) => TopoModel::Vertex(p),
        TopoData::Edge(g, ch) => TopoModel::Edge(g, view_nodes(ch@)),
        TopoData::Wire(ch) => TopoModel::Wire(view_nodes(ch@)),
        TopoData::Face(ch) => TopoModel::Face(view_nodes(ch@)),
        TopoData::Shell(ch) => TopoModel::Shell(view_nodes(ch@)),
        TopoData::Solid(ch) => TopoModel::Solid(view_nodes(ch@)),
        TopoData::CompSolid(ch) => TopoModel::CompSolid(view_nodes(ch@)),
        TopoData::Compound(ch) => TopoModel::Compound(view_nodes(ch@)),
    }
}

pub(crate) open spec fn view_nodes(s: Seq<Node>) -> Seq<NodeModel>
    decreases s,
{
    if s.len() == 0 {
        Seq::empty()
    } else {
        seq![view_node(s[0])] + view_nodes(s.subrange(1, s.len() as int))
    }
}

pub(crate) proof fn lemma_view_nodes_len(s: Seq<Node>)
    ensures
        view_nodes(s).len() == s.len(),
    decreases s,
{
    if s.len() != 0 {
        lemma_view_nodes_len(s.subrange(1, s.len() as int));
    }
}

pub(crate) proof fn lemma_view_nodes_index(s: Seq<Node>, i: int)
    requires
        0 <= i < s.len(),
    ensures
        view_nodes(s).len() == s.len(),
        view_nodes(s)[i] == view_node(s[i]),
    decreases s,
{
    lemma_view_nodes_len(s);
    if i > 0 {
        lemma_view_nodes_index(s.subrange(1, s.len() as int), i - 1);
    }
}

/// The kind of payload a model node carries.
pub open spec fn model_kind(d: TopoModel) -> ShapeType {
    match d {
        TopoModel::Vertex(_) => ShapeType::Vertex,
        TopoModel::Edge(_, _) => ShapeType::Edge,
        TopoModel::Wire(_) => ShapeType::Wire,
        TopoModel::Face(_) => ShapeType::Face,
        TopoModel::Shell(_) => ShapeType::Shell,
        TopoModel::Solid(_) => ShapeType::Solid,
        TopoModel::CompSolid(_) => ShapeType::Compsolid,
        TopoModel::Compound(_) => ShapeType::Compound,
    }
}

/// The kind of a model node.
pub open spec fn kind_of(m: NodeModel) -> ShapeType {
    model_kind(m.data)
}

/// The direct sub-shapes of a model node.
pub open spec fn children_of(m: NodeModel) -> Seq<NodeModel> {
    match m.data {
        TopoModel::Vertex(_) => Seq::empty(),
        TopoModel::Edge(_, ch) => ch,
        TopoModel::Wire(ch) => ch,
        TopoModel::Face(ch) => ch,
        TopoModel::Shell(ch) => ch,
        TopoModel::Solid(ch) => ch,
        TopoModel::CompSolid(ch) => ch,
        TopoModel::Compound(ch) => ch,
    }
}

/// The point of a vertex model node.
pub open spec fn vertex_point(m: NodeModel) -> Point
    recommends
        kind_of(m) == ShapeType::Vertex,
{
    match m.data {
        TopoModel::Vertex(p) => p,
        _ => Point { x: 0, y: 0, z: 0 },
    }
}

/// Whether an edge's geometry agrees with its boundary vertices: a segment
/// has two distinct end vertices, a line and a circle have none, an arc has
/// exactly its generator, and a circle's radius is positive.
pub open spec fn edge_boundary_ok(g: EdgeGeom, ch: Seq<NodeModel>) -> bool {
    match g {
        EdgeGeom::Segment => ch.len() == 2 && vertex_point(ch[0]) != vertex_point(ch[1]),
        EdgeGeom::Line(_) => ch.len() == 0,
        EdgeGeom::Circle(_, r) => ch.len() == 0 && r > 0,
        EdgeGeom::Arc(_, _) => ch.len() == 1,
    }
}

/// Well-formedness of a model node: every child is well-formed and carries
/// the kind its parent's kind demands, and an edge's geometry agrees with
/// its boundary.
pub open spec fn wf(m: NodeModel) -> bool
    decreases m,
{
    match m.data {
        TopoModel::Vertex(_) => true,
        TopoModel::Edge(g, ch) => edge_boundary_ok(g, ch) && wf_children(ch, ShapeType::Vertex),
        TopoModel::Wire(ch) => wf_children(ch, ShapeType::Edge),
        TopoModel::Face(ch) => wf_children(ch, ShapeType::Wire),
        TopoModel::Shell(ch) => wf_children(ch, ShapeType::Face),
        TopoModel::Solid(ch) => wf_children(ch, ShapeType::Shell),
        TopoModel::CompSolid(ch) => wf_children(ch, ShapeType::Solid),
        TopoModel::Compound(ch) => forall|i: int| 0 <= i < ch.len() ==> wf(#[trigger] ch[i]),
    }
}

/// Every element of `ch` is well-formed and of kind `k`.
pub open spec fn wf_children(ch: Seq<NodeModel>, k: ShapeType) -> bool
    decreases ch,
{
    forall|i: int| 0 <= i < ch.len() ==> wf(#[trigger] ch[i]) && kind_of(ch[i]) == k
}

/// Every sub-shape of kind `k` within `m`, in pre-order, with repetitions:
/// `m` itself first if its kind matches, then the sub-shapes of each child
/// in order.
pub open spec fn sub_list(m: NodeModel, k: ShapeType) -> Seq<NodeModel>
    decreases m,
{
    let own: Seq<NodeModel> = if kind_of(m) == k {
        seq![m]
    } else {
        Seq::empty()
    };
    match m.data {
        TopoModel::Vertex(_) => own,
        TopoModel::Edge(_, ch) => own + sub_list_seq(ch, k),
        TopoModel::Wire(ch) => own + sub_list_seq(ch, k),
        TopoModel::Face(ch) => own + sub_list_seq(ch, k),
        TopoModel::Shell(ch) => own + sub_list_seq(ch, k),
        TopoModel::Solid(ch) => own + sub_list_seq(ch, k),
        TopoModel::CompSolid(ch) => own + sub_list_seq(ch, k),
        TopoModel::Compound(ch) => own + sub_list_seq(ch, k),
    }
}

/// The concatenation of the sub-shape lists of the elements of `s`.
pub open spec fn sub_list_seq(s: Seq<NodeModel>, k: ShapeType) -> Seq<NodeModel>
    decreases s,
{
    if s.len() == 0 {
        Seq::empty()
    } else {
        sub_list(s[0], k) + sub_list_seq(s.subrange(1, s.len() as int), k)
    }
}

/// Keep only the first occurrence of each element, preserving order.
pub open spec fn dedup(s: Seq<NodeModel>) -> Seq<NodeModel>
    decreases s.len(),
{
    if s.len() == 0 {
        Seq::empty()
    } else {
        let rest = dedup(s.drop_last());
        if s.drop_last().contains(s.last()) {
            rest
        } else {
            rest.push(s.last())
        }
    }
}

pub proof fn lemma_dedup_membership(s: Seq<NodeModel>, x: NodeModel)
    ensures
        dedup(s).contains(x) <==> s.contains(x),
    decreases s.len(),
{
    if s.len() != 0 {
        let p = s.drop_last();
        let rest = dedup(p);
        let d = dedup(s);
        lemma_dedup_membership(p, x);
        if s.contains(x) {
            let i = choose|i: int| 0 <= i < s.len() && s[i] == x;
            if i < s.len() - 1 {
                assert(p[i] == x);
                assert(p.contains(x));
            }
            if p.contains(x) {
                let j = choose|j: int| 0 <= j < rest.len() && rest[j] == x;
                assert(d[j] == x);
                assert(d.contains(x));
            } else {
                assert(x == s.last());
                assert(d == rest.push(s.last()));
                assert(d[d.len() - 1] == x);
                assert(d.contains(x));
            }
        }
        if d.contains(x) {
            let i = choose|i: int| 0 <= i < d.len() && d[i] == x;
            if i < rest.len() {
                assert(rest[i] == x);
                assert(rest.contains(x));
                assert(p.contains(x));
                let j = choose|j: int| 0 <= j < p.len() && p[j] == x;
                assert(s[j] == x);
                assert(s.contains(x));
            } else {
                assert(x == s.last());
                assert(s[s.len() - 1] == x);
                assert(s.contains(x));
            }
        }
    }
}

pub proof fn lemma_dedup_distinct(s: Seq<NodeModel>)
    ensures
        forall|i: int, j: int|
            0 <= i < j < dedup(s).len() ==> dedup(s)[i] != dedup(s)[j],
    decreases s.len(),
{
    if s.len() != 0 {
        let p = s.drop_last();
        let rest = dedup(p);
        lemma_dedup_distinct(p);
        if !p.contains(s.last()) {
            let d = dedup(s);
            assert forall|i: int, j: int| 0 <= i < j < d.len() implies d[i] != d[j] by {
                if j == d.len() - 1 {
                    assert(d[j] == s.last());
                    assert(d[i] == rest[i]);
                    assert(rest.contains(d[i]));
                    lemma_dedup_membership(p, d[i]);
                } else {
                    assert(d[i] == rest[i] && d[j] == rest[j]);
                }
            }
        }
    }
}

pub proof fn lemma_dedup_push(p: Seq<NodeModel>, x: NodeModel)
    ensures
        dedup(p.push(x)) == if p.contains(x) {
            dedup(p)
        } else {
            dedup(p).push(x)
        },
{
    assert(p.push(x).drop_last() =~= p);
    assert(p.push(x).last() == x);
}

pub proof fn lemma_sub_list_seq_push(s: Seq<NodeModel>, x: NodeModel, k: ShapeType)
    ensures
        sub_list_seq(s.push(x), k) == sub_list_seq(s, k) + sub_list(x, k),
    decreases s.len(),
{
    reveal_with_fuel(sub_list_seq, 3);
    if s.len() == 0 {
        assert(s.push(x)[0] == x);
        assert(s.push(x).subrange(1, 1) =~= Seq::<NodeModel>::empty());
        assert(sub_list_seq(s.push(x), k) =~= sub_list_seq(s, k) + sub_list(x, k));
    } else {
        assert(s.push(x)[0] == s[0]);
        assert(s.push(x).subrange(1, s.len() as int + 1) =~= s.subrange(1, s.len() as int).push(x));
        lemma_sub_list_seq_push(s.subrange(1, s.len() as int), x, k);
        assert(sub_list_seq(s.push(x), k) =~= sub_list_seq(s, k) + sub_list(x, k));
    }
}

/// Within a well-formed shape, every listed sub-shape is well-formed and of
/// the requested kind.
pub proof fn lemma_sub_list_wf(m: NodeModel, k: ShapeType)
    requires
        wf(m),
    ensures
        forall|j: int|
            0 <= j < sub_list(m, k).len()
                ==> wf(#[trigger] sub_list(m, k)[j]) && kind_of(sub_list(m, k)[j]) == k,
    decreases m,
{
    reveal_with_fuel(wf, 2);
    reveal_with_fuel(wf_children, 2);
    match m.data {
        TopoModel::Vertex(_) => {},
        TopoModel::Edge(_, ch) => {
            assert forall|i: int| 0 <= i < ch.len() implies wf(#[trigger] ch[i]) by {}
            lemma_sub_list_seq_wf(ch, k);
            assert forall|j: int| 0 <= j < sub_list(m, k).len() implies wf(
                #[trigger] sub_list(m, k)[j],
            ) && kind_of(sub_list(m, k)[j]) == k by {
                if kind_of(m) == k {
                    if j > 0 {
                        assert(sub_list(m, k)[j] == sub_list_seq(ch, k)[j - 1]);
                    }
                } else {
                    assert(sub_list(m, k)[j] == sub_list_seq(ch, k)[j]);
                }
            }
        },
        TopoModel::Wire(ch) => {
            assert forall|i: int| 0 <= i < ch.len() implies wf(#[trigger] ch[i]) by {}
            lemma_sub_list_seq_wf(ch, k);
            assert forall|j: int| 0 <= j < sub_list(m, k).len() implies wf(
                #[trigger] sub_list(m, k)[j],
            ) && kind_of(sub_list(m, k)[j]) == k by {
                if kind_of(m) == k {
                    if j > 0 {
                        assert(sub_list(m, k)[j] == sub_list_seq(ch, k)[j - 1]);
                    }
                } else {
                    assert(sub_list(m, k)[j] == sub_list_seq(ch, k)[j]);
                }
            }
        },
        TopoModel::Face(ch) => {
            assert forall|i: int| 0 <= i < ch.len() implies wf(#[trigger] ch[i]) by {}
            lemma_sub_list_seq_wf(ch, k);
            assert forall|j: int| 0 <= j < sub_list(m, k).len() implies wf(
                #[trigger] sub_list(m, k)[j],
            ) && kind_of(sub_list(m, k)[j]) == k by {
                if kind_of(m) == k {
                    if j > 0 {
                        assert(sub_list(m, k)[j] == sub_list_seq(ch, k)[j - 1]);
                    }
                } else {
                    assert(sub_list(m, k)[j] == sub_list_seq(ch, k)[j]);
                }
            }
        },
        TopoModel::Shell(ch) => {
            assert forall|i: int| 0 <= i < ch.len() implies wf(#[trigger] ch[i]) by {}
            lemma_sub_list_seq_wf(ch, k);
            assert forall|j: int| 0 <= j < sub_list(m, k).len() implies wf(
                #[trigger] sub_list(m, k)[j],
            ) && kind_of(sub_list(m, k)[j]) == k by {
                if kind_of(m) == k {
                    if j > 0 {
                        assert(sub_list(m, k)[j] == sub_list_seq(ch, k)[j - 1]);
                    }
                } else {
                    assert(sub_list(m, k)[j] == sub_list_seq(ch, k)[j]);
                }
            }
        },
        TopoModel::Solid(ch) => {
            assert forall|i: int| 0 <= i < ch.len() implies wf(#[trigger] ch[i]) by {}
            lemma_sub_list_seq_wf(ch, k);
            assert forall|j: int| 0 <= j < sub_list(m, k).len() implies wf(
                #[trigger] sub_list(m, k)[j],
            ) && kind_of(sub_list(m, k)[j]) == k by {
                if kind_of(m) == k {
                    if j > 0 {
                        assert(sub_list(m, k)[j] == sub_list_seq(ch, k)[j - 1]);
                    }
                } else {
                    assert(sub_list(m, k)[j] == sub_list_seq(ch, k)[j]);
                }
            }
        },
        TopoModel::CompSolid(ch) => {
            assert forall|i: int| 0 <= i < ch.len() implies wf(#[trigger] ch[i]) by {}
            lemma_sub_list_seq_wf(ch, k);
            assert forall|j: int| 0 <= j < sub_list(m, k).len() implies wf(
                #[trigger] sub_list(m, k)[j],
            ) && kind_of(sub_list(m, k)[j]) == k by {
                if kind_of(m) == k {
                    if j > 0 {
                        assert(sub_list(m, k)[j] == sub_list_seq(ch, k)[j - 1]);
                    }
                } else {
                    assert(sub_list(m, k)[j] == sub_list_seq(ch, k)[j]);
                }
            }
        },
        TopoModel::Compound(ch) => {
            assert forall|i: int| 0 <= i < ch.len() implies wf(#[trigger] ch[i]) by {}
            lemma_sub_list_seq_wf(ch, k);
            assert forall|j: int| 0 <= j < sub_list(m, k).len() implies wf(
                #[trigger] sub_list(m, k)[j],
            ) && kind_of(sub_list(m, k)[j]) == k by {
                if kind_of(m) == k {
                    if j > 0 {
                        assert(sub_list(m, k)[j] == sub_list_seq(ch, k)[j - 1]);
                    }
                } else {
                    assert(sub_list(m, k)[j] == sub_list_seq(ch, k)[j]);
                }
            }
        },
    }
}

pub proof fn lemma_sub_list_seq_wf(s: Seq<NodeModel>, k: ShapeType)
    requires
        forall|i: int| 0 <= i < s.len() ==> wf(#[trigger] s[i]),
    ensures
        forall|j: int|
            0 <= j < sub_list_seq(s, k).len()
                ==> wf(#[trigger] sub_list_seq(s, k)[j]) && kind_of(sub_list_seq(s, k)[j]) == k,
    decreases s,
{
    if s.len() != 0 {
        let rest = s.subrange(1, s.len() as int);
        lemma_sub_list_wf(s[0], k);
        lemma_sub_list_seq_wf(rest, k);
        assert forall|j: int| 0 <= j < sub_list_seq(s, k).len() implies wf(
            #[trigger] sub_list_seq(s, k)[j],
        ) && kind_of(sub_list_seq(s, k)[j]) == k by {
            let head = sub_list(s[0], k);
            if j < head.len() {
                assert(sub_list_seq(s, k)[j] == head[j]);
            } else {
                assert(sub_list_seq(s, k)[j] == sub_list_seq(rest, k)[j - head.len()]);
            }
        }
    }
}

pub(crate) proof fn lemma_view_nodes_push(s: Seq<Node>, c: Node)
    ensures
        view_nodes(s.push(c)) == view_nodes(s).push(view_node(c)),
    decreases s,
{
    reveal_with_fuel(view_nodes, 3);
    if s.len() == 0 {
        assert(s.push(c)[0] == c);
        assert(s.push(c).subrange(1, 1) =~= Seq::<Node>::empty());
        assert(view_nodes(s.push(c)) =~= view_nodes(s).push(view_node(c)));
    } else {
        assert(s.push(c)[0] == s[0]);
        assert(s.push(c).subrange(1, s.len() as int + 1) =~= s.subrange(1, s.len() as int).push(c));
        lemma_view_nodes_push(s.subrange(1, s.len() as int), c);
        assert(view_nodes(s.push(c)) =~= view_nodes(s).push(view_node(c)));
    }
}

/// The kind tag of a node, read from its payload.
pub(crate) fn node_kind(n: &Node) -> (k: ShapeType)
    ensures
        k == kind_of(view_node(*n)),
{
    match &n.data {
        TopoData::Vertex(_) => ShapeType::Vertex,
        TopoData::Edge(_, _) => ShapeType::Edge,
        TopoData::Wire(_) => ShapeType::Wire,
        TopoData::Face(_) => ShapeType::Face,
        TopoData::Shell(_) => ShapeType::Shell,
        TopoData::Solid(_) => ShapeType::Solid,
        TopoData::CompSolid(_) => ShapeType::Compsolid,
        TopoData::Compound(_) => ShapeType::Compound,
    }
}

/// Structural equality of two nodes, decided recursively.
pub(crate) fn node_eq(a: &Node, b: &Node) -> (r: bool)
    ensures
        r == (view_node(*a) == view_node(*b)),
    decreases *a,
{
    if a.id != b.id || a.orient != b.orient || a.location != b.location {
        return false;
    }
    match (&a.data, &b.data) {
        (TopoData::Vertex(p), TopoData::Vertex(q)) => p == q,
        (TopoData::Edge(g1, c1), TopoData::Edge(g2, c2)) => *g1 == *g2 && nodes_eq(c1, c2),
        (TopoData::Wire(c1), TopoData::Wire(c2)) => nodes_eq(c1, c2),
        (TopoData::Face(c1), TopoData::Face(c2)) => nodes_eq(c1, c2),
        (TopoData::Shell(c1), TopoData::Shell(c2)) => nodes_eq(c1, c2),
        (TopoData::Solid(c1), TopoData::Solid(c2)) => nodes_eq(c1, c2),
        (TopoData::CompSolid(c1), TopoData::CompSolid(c2)) => nodes_eq(c1, c2),
        (TopoData::Compound(c1), TopoData::Compound(c2)) => nodes_eq(c1, c2),
        _ => false,
    }
}

/// Elementwise structural equality of two child lists.
pub(crate) fn nodes_eq(x: &Vec<Node>, y: &Vec<Node>) -> (r: bool)
    ensures
        r == (view_nodes(x@) == view_nodes(y@)),
    decreases *x,
{
    proof {
        lemma_view_nodes_len(x@);
        lemma_view_nodes_len(y@);
    }
    if x.len() != y.len() {
        return false;
    }
    let n = x.len();
    for i in 0..n
        invariant
            n == x@.len(),
            x@.len() == y@.len(),
            forall|j: int| 0 <= j < i ==> view_node(x@[j]) == view_node(y@[j]),
    {
        if !node_eq(&x[i], &y[i]) {
            proof {
                lemma_view_nodes_index(x@, i as int);
                lemma_view_nodes_index(y@, i as int);
            }
            return false;
        }
    }
    proof {
        assert forall|j: int| 0 <= j < x@.len() implies view_nodes(x@)[j] == view_nodes(y@)[j] by {
            lemma_view_nodes_index(x@, j);
            lemma_view_nodes_index(y@, j);
        }
        assert(view_nodes(x@) =~= view_nodes(y@));
    }
    true
}

/// A structural copy of a node; the copy has the same model.
pub(crate) fn copy_node(n: &Node) -> (r: Node)
    ensures
        view_node(r) == view_node(*n),
    decreases *n,
{
    let data = match &n.data {
        TopoData::Vertex(p) => TopoData::Vertex(*p),
        TopoData::Edge(g, ch) => TopoData::Edge(*g, copy_nodes(ch)),
        TopoData::Wire(ch) => TopoData::Wire(copy_nodes(ch)),
        TopoData::Face(ch) => TopoData::Face(copy_nodes(ch)),
        TopoData::Shell(ch) => TopoData::Shell(copy_nodes(ch)),
        TopoData::Solid(ch) => TopoData::Solid(copy_nodes(ch)),
        TopoData::CompSolid(ch) => TopoData::CompSolid(copy_nodes(ch)),
        TopoData::Compound(ch) => TopoData::Compound(copy_nodes(ch)),
    };
    Node { id: n.id, orient: n.orient, location: n.location, data }
}

/// A structural copy of a child list; the copy has the same model.
pub(crate) fn copy_nodes(v: &Vec<Node>) -> (r: Vec<Node>)
    ensures
        view_nodes(r@) == view_nodes(v@),
    decreases *v,
{
    let mut r: Vec<Node> = Vec::new();
    let n = v.len();
    for i in 0..n
        invariant
            n == v@.len(),
            r@.len() == i,
            forall|j: int| 0 <= j < i ==> view_node(r@[j]) == view_node(v@[j]),
    {
        let c = copy_node(&v[i]);
        r.push(c);
    }
    proof {
        lemma_view_nodes_len(r@);
        lemma_view_nodes_len(v@);
        assert forall|j: int| 0 <= j < v@.len() implies view_nodes(r@)[j] == view_nodes(v@)[j] by {
            lemma_view_nodes_index(r@, j);
            lemma_view_nodes_index(v@, j);
        }
        assert(view_nodes(r@) =~= view_nodes(v@));
    }
    r
}

/// Whether the list already holds a node with this model.
pub(crate) fn contains_node(v: &Vec<Node>, n: &Node) -> (r: bool)
    ensures
        r == view_nodes(v@).contains(view_node(*n)),
{
    let len = v.len();
    for i in 0..len
        invariant
            len == v@.len(),
            forall|j: int| 0 <= j < i ==> view_node(v@[j]) != view_node(*n),
    {
        if node_eq(&v[i], n) {
            proof {
                lemma_view_nodes_index(v@, i as int);
            }
            return true;
        }
    }
    proof {
        lemma_view_nodes_len(v@);
        if view_nodes(v@).contains(view_node(*n)) {
            let j = choose|j: int| 0 <= j < view_nodes(v@).len() && view_nodes(v@)[j] == view_node(*n);
            lemma_view_nodes_index(v@, j);
        }
    }
    false
}

/// Walk `n` and append to `out` each sub-shape of kind `k` that is not
/// already present; `prefix` is the pre-order list of matching sub-shapes
/// seen before this call.
pub(crate) fn collect_into(n: &Node, k: ShapeType, out: &mut Vec<Node>, Ghost(prefix): Ghost<Seq<NodeModel>>)
    requires
        view_nodes(old(out)@) == dedup(prefix),
    ensures
        view_nodes(final(out)@) == dedup(prefix + sub_list(view_node(*n), k)),
    decreases *n,
{
    let ghost own: Seq<NodeModel> = if kind_of(view_node(*n)) == k {
        seq![view_node(*n)]
    } else {
        Seq::empty()
    };
    if node_kind(n) == k {
        let present = contains_node(out, n);
        proof {
            lemma_dedup_membership(prefix, view_node(*n));
            lemma_dedup_push(prefix, view_node(*n));
        }
        if !present {
            let c = copy_node(n);
            proof {
                lemma_view_nodes_push(out@, c);
            }
            out.push(c);
        }
        proof {
            assert(prefix.push(view_node(*n)) =~= prefix + own);
        }
    } else {
        proof {
            assert(prefix =~= prefix + own);
        }
    }
    let ghost base = prefix + own;
    proof {
        assert(view_nodes(out@) == dedup(base));
    }
    match &n.data {
        TopoData::Vertex(_) => {
            proof {
                assert(prefix + sub_list(view_node(*n), k) =~= base);
            }
        },
        TopoData::Edge(_, ch)
        | TopoData::Wire(ch)
        | TopoData::Face(ch)
        | TopoData::Shell(ch)
        | TopoData::Solid(ch)
        | TopoData::CompSolid(ch)
        | TopoData::Compound(ch) => {
            collect_children(ch, k, out, Ghost(base));
            proof {
                assert(children_of(view_node(*n)) == view_nodes(ch@));
                assert(base + sub_list_seq(view_nodes(ch@), k) =~= prefix + sub_list(view_node(*n), k));
            }
        },
    }
}

/// Walk each child in order, appending its unseen sub-shapes of kind `k`.
pub(crate) fn collect_children(ch: &Vec<Node>, k: ShapeType, out: &mut Vec<Node>, Ghost(base): Ghost<Seq<NodeModel>>)
    requires
        view_nodes(old(out)@) == dedup(base),
    ensures
        view_nodes(final(out)@) == dedup(base + sub_list_seq(view_nodes(ch@), k)),
    decreases *ch,
{
    proof {
        lemma_view_nodes_len(ch@);
        assert(view_nodes(ch@).subrange(0, 0) =~= Seq::<NodeModel>::empty());
        assert(base + sub_list_seq(view_nodes(ch@).subrange(0, 0), k) =~= base);
    }
    let n = ch.len();
    for i in 0..n
        invariant
            n == ch@.len(),
            view_nodes(ch@).len() == n,
            view_nodes(out@) == dedup(
                base + sub_list_seq(view_nodes(ch@).subrange(0, i as int), k),
            ),
    {
        let ghost taken = view_nodes(ch@).subrange(0, i as int);
        collect_into(&ch[i], k, out, Ghost(base + sub_list_seq(taken, k)));
        proof {
            lemma_view_nodes_index(ch@, i as int);
            assert(view_nodes(ch@).subrange(0, i + 1) =~= taken.push(view_nodes(ch@)[i as int]));
            lemma_sub_list_seq_push(taken, view_nodes(ch@)[i as int], k);
            assert((base + sub_list_seq(taken, k)) + sub_list(view_node(ch@[i as int]), k) =~= base
                + sub_list_seq(view_nodes(ch@).subrange(0, i + 1), k));
        }
    }
    proof {
        assert(view_nodes(ch@).subrange(0, ch@.len() as int) =~= view_nodes(ch@));
    }
}

} // verus!

