//! The wire builder: edges accumulate into a wire, with connectivity and
//! manifoldness checked as the kernel's wire algorithm does.

use vstd::prelude::*;

use crate::kernel::Kernel;
use crate::math::Point;
use crate::shape::{typed_inv, typed_model, IsShape, Shape};
use crate::topo::{
    children_of, copy_node, kind_of, lemma_view_nodes_index, lemma_view_nodes_len, vertex_point,
    view_node, view_nodes, wf, wf_children, Node, NodeModel, Orientation, ShapeType, TopoData,
    TopoModel,
};
use crate::transform::Transformation;
use crate::variant::{Edge, Wire};

verus! {

/// Wire construction error.
#[derive(Clone, Copy, Debug, PartialEq, Eq, Structural, PartialOrd, Ord, Hash)]
pub enum WireError {
    /// No initialization of the algorithm: no edge was given.
    EmptyWire,
    /// The last edge which you attempted to add was not connected to the wire.
    DisconnectedWire,
    /// The wire has a singularity: some vertex joins three or more edges.
    NonManifoldWire,
}

/// The boundary points of an edge model, in order.
pub open spec fn edge_points(m: NodeModel) -> Seq<Point> {
    children_of(m).map_values(|c: NodeModel| vertex_point(c))
}

/// The boundary points of a list of edge models, concatenated in order.
pub open spec fn edges_points(s: Seq<NodeModel>) -> Seq<Point>
    decreases s.len(),
{
    if s.len() == 0 {
        Seq::empty()
    } else {
        edges_points(s.drop_last()) + edge_points(s.last())
    }
}

/// Whether the edge `e` shares at least one boundary point with `pts`.
pub open spec fn connects_to(pts: Seq<Point>, e: NodeModel) -> bool {
    exists|i: int| 0 <= i < edge_points(e).len() && pts.contains(edge_points(e)[i])
}

/// Whether the edge at position `i` shares a boundary point with the edges
/// before it.
pub open spec fn connected_at(edges: Seq<NodeModel>, i: int) -> bool {
    connects_to(edges_points(edges.take(i)), edges[i])
}

/// How many times the point `p` occurs among `pts`.
pub open spec fn occ(pts: Seq<Point>, p: Point) -> int
    decreases pts.len(),
{
    if pts.len() == 0 {
        0
    } else {
        occ(pts.drop_last(), p) + if pts.last() == p {
            1int
        } else {
            0int
        }
    }
}

pub proof fn lemma_occ_positive(s: Seq<Point>, p: Point)
    requires
        occ(s, p) > 0,
    ensures
        s.contains(p),
    decreases s.len(),
{
    if s.last() == p {
        assert(s[s.len() - 1] == p);
    } else {
        lemma_occ_positive(s.drop_last(), p);
        let j = choose|j: int| 0 <= j < s.drop_last().len() && s.drop_last()[j] == p;
        assert(s[j] == p);
    }
}

/// The wire builder's verdict on a list of edges: no edge at all is an
/// empty wire; an edge that shares no boundary point with the edges before
/// it leaves the wire disconnected; a point joining three or more edge ends
/// leaves it non-manifold; otherwise the wire is built.
pub open spec fn wire_verdict(edges: Seq<NodeModel>) -> Result<(), WireError> {
    if edges.len() == 0 {
        Result::Err(WireError::EmptyWire)
    } else if exists|i: int| 1 <= i < edges.len() && !connected_at(edges, i) {
        Result::Err(WireError::DisconnectedWire)
    } else if exists|p: Point| occ(edges_points(edges), p) >= 3 {
        Result::Err(WireError::NonManifoldWire)
    } else {
        Result::Ok(())
    }
}

/// The model of a fresh wire entity `id` over the given edges: forward
/// orientation, identity placement.
pub open spec fn wire_node(id: u64, edges: Seq<NodeModel>) -> NodeModel {
    NodeModel {
        id,
        orient: Orientation::Forward,
        location: Transformation::identity(),
        data: TopoModel::Wire(edges),
    }
}

/// All boundary vertices of a list of edge models, in order.
pub open spec fn edges_vertices(s: Seq<NodeModel>) -> Seq<NodeModel>
    decreases s.len(),
{
    if s.len() == 0 {
        Seq::empty()
    } else {
        edges_vertices(s.drop_last()) + children_of(s.last())
    }
}

/// The first vertex among `vs` at the point `p`.
pub open spec fn first_vertex_at(vs: Seq<NodeModel>, p: Point) -> NodeModel
    recommends
        exists|j: int| 0 <= j < vs.len() && vertex_point(vs[j]) == p,
    decreases vs.len(),
{
    if vs.len() == 0 {
        NodeModel {
            id: 0,
            orient: Orientation::Forward,
            location: Transformation::identity(),
            data: TopoModel::Vertex(p),
        }
    } else if vertex_point(vs[0]) == p {
        vs[0]
    } else {
        first_vertex_at(vs.subrange(1, vs.len() as int), p)
    }
}

/// The edge with each boundary vertex replaced by the first vertex among
/// `vs` at the same point: coincident vertices are sewn into one entity.
pub open spec fn sewn_edge(m: NodeModel, vs: Seq<NodeModel>) -> NodeModel {
    match m.data {
        TopoModel::Edge(g, ch) => NodeModel {
            id: m.id,
            orient: m.orient,
            location: m.location,
            data: TopoModel::Edge(
                g,
                ch.map_values(|c: NodeModel| first_vertex_at(vs, vertex_point(c))),
            ),
        },
        _ => m,
    }
}

/// Each edge sewn over the boundary vertices of the whole chain.
pub open spec fn sewn_edges(s: Seq<NodeModel>) -> Seq<NodeModel> {
    s.map_values(|m: NodeModel| sewn_edge(m, edges_vertices(s)))
}

pub proof fn lemma_first_vertex_found(vs: Seq<NodeModel>, p: Point, i: int)
    requires
        0 <= i < vs.len(),
        vertex_point(vs[i]) == p,
        forall|j: int| 0 <= j < i ==> vertex_point(#[trigger] vs[j]) != p,
    ensures
        first_vertex_at(vs, p) == vs[i],
    decreases vs.len(),
{
    if i > 0 {
        let rest = vs.subrange(1, vs.len() as int);
        assert(forall|j: int| 0 <= j < i - 1 ==> rest[j] == vs[j + 1]);
        lemma_first_vertex_found(rest, p, i - 1);
    }
}

pub proof fn lemma_first_vertex_present(vs: Seq<NodeModel>, p: Point)
    requires
        exists|j: int| 0 <= j < vs.len() && vertex_point(#[trigger] vs[j]) == p,
    ensures
        vs.contains(first_vertex_at(vs, p)),
        vertex_point(first_vertex_at(vs, p)) == p,
    decreases vs.len(),
{
    if vertex_point(vs[0]) == p {
        assert(vs[0] == first_vertex_at(vs, p));
    } else {
        let rest = vs.subrange(1, vs.len() as int);
        let j = choose|j: int| 0 <= j < vs.len() && vertex_point(#[trigger] vs[j]) == p;
        assert(rest[j - 1] == vs[j]);
        lemma_first_vertex_present(rest, p);
        let k = choose|k: int| 0 <= k < rest.len() && rest[k] == first_vertex_at(rest, p);
        assert(vs[k + 1] == first_vertex_at(vs, p));
    }
}

/// Every boundary vertex of every edge occurs in the chain's vertex list.
pub proof fn lemma_edges_vertices_contains(s: Seq<NodeModel>, i: int, j: int)
    requires
        0 <= i < s.len(),
        0 <= j < children_of(s[i]).len(),
    ensures
        edges_vertices(s).contains(children_of(s[i])[j]),
    decreases s.len(),
{
    let p = s.drop_last();
    if i < s.len() - 1 {
        lemma_edges_vertices_contains(p, i, j);
        let k = choose|k: int|
            0 <= k < edges_vertices(p).len() && edges_vertices(p)[k] == children_of(p[i])[j];
        assert(edges_vertices(s)[k] == children_of(s[i])[j]);
    } else {
        let k = edges_vertices(p).len() as int + j;
        assert(edges_vertices(s)[k] == children_of(s[i])[j]);
    }
}

/// The chain's vertex list holds well-formed vertices when its edges are
/// well-formed.
pub proof fn lemma_edges_vertices_wf(s: Seq<NodeModel>)
    requires
        forall|i: int|
            0 <= i < s.len() ==> wf(#[trigger] s[i]) && kind_of(s[i]) == ShapeType::Edge,
    ensures
        forall|j: int|
            0 <= j < edges_vertices(s).len() ==> wf(#[trigger] edges_vertices(s)[j]) && kind_of(
                edges_vertices(s)[j],
            ) == ShapeType::Vertex,
    decreases s.len(),
{
    reveal_with_fuel(wf, 2);
    reveal_with_fuel(wf_children, 2);
    if s.len() != 0 {
        let p = s.drop_last();
        lemma_edges_vertices_wf(p);
        assert forall|j: int| 0 <= j < edges_vertices(s).len() implies wf(
            #[trigger] edges_vertices(s)[j],
        ) && kind_of(edges_vertices(s)[j]) == ShapeType::Vertex by {
            if j < edges_vertices(p).len() {
                assert(edges_vertices(s)[j] == edges_vertices(p)[j]);
            } else {
                let c = j - edges_vertices(p).len();
                assert(edges_vertices(s)[j] == children_of(s[s.len() - 1])[c]);
                assert(wf(s[s.len() - 1]));
            }
        }
    }
}

/// Whether `pts` holds the point `p`.
fn contains_point(pts: &Vec<Point>, p: &Point) -> (r: bool)
    ensures
        r == pts@.contains(*p),
{
    let n = pts.len();
    for i in 0..n
        invariant
            n == pts@.len(),
            forall|j: int| 0 <= j < i ==> pts@[j] != *p,
    {
        if pts[i] == *p {
            return true;
        }
    }
    false
}

/// Whether any element of `epts` occurs in `pts`.
fn shares_any(pts: &Vec<Point>, epts: &Vec<Point>) -> (r: bool)
    ensures
        r == exists|i: int| 0 <= i < epts@.len() && pts@.contains(epts@[i]),
{
    let n = epts.len();
    for i in 0..n
        invariant
            n == epts@.len(),
            forall|j: int| 0 <= j < i ==> !pts@.contains(#[trigger] epts@[j]),
    {
        if contains_point(pts, &epts[i]) {
            return true;
        }
    }
    false
}

/// How many times `p` occurs among `pts`.
fn count_occ(pts: &Vec<Point>, p: &Point) -> (c: usize)
    ensures
        c == occ(pts@, *p),
{
    let n = pts.len();
    let mut c: usize = 0;
    proof {
        assert(pts@.take(0) =~= Seq::<Point>::empty());
    }
    for j in 0..n
        invariant
            n == pts@.len(),
            c <= j,
            c == occ(pts@.take(j as int), *p),
    {
        let ghost before = pts@.take(j as int);
        if pts[j] == *p {
            c = c + 1;
        }
        proof {
            assert(pts@.take(j + 1).drop_last() =~= before);
            assert(pts@.take(j + 1).last() == pts@[j as int]);
        }
    }
    proof {
        assert(pts@.take(pts@.len() as int) =~= pts@);
    }
    c
}

/// The boundary points of one edge node, in order.
pub(crate) fn edge_node_points(node: &Node) -> (r: Vec<Point>)
    requires
        wf(view_node(*node)),
        kind_of(view_node(*node)) == ShapeType::Edge,
    ensures
        r@ == edge_points(view_node(*node)),
{
    let ghost m = view_node(*node);
    match &node.data {
        TopoData::Edge(_, ch) => {
            proof {
                lemma_view_nodes_len(ch@);
                reveal_with_fuel(wf, 2);
                reveal_with_fuel(wf_children, 2);
            }
            let n = ch.len();
            let mut r: Vec<Point> = Vec::new();
            for i in 0..n
                invariant
                    n == ch@.len(),
                    view_nodes(ch@).len() == n,
                    children_of(m) == view_nodes(ch@),
                    wf(m),
                    kind_of(m) == ShapeType::Edge,
                    r@.len() == i,
                    forall|j: int| 0 <= j < i ==> r@[j] == vertex_point(view_nodes(ch@)[j]),
            {
                proof {
                    lemma_view_nodes_index(ch@, i as int);
                    reveal_with_fuel(wf, 2);
                    reveal_with_fuel(wf_children, 2);
                    assert(kind_of(view_nodes(ch@)[i as int]) == ShapeType::Vertex);
                }
                match &ch[i].data {
                    TopoData::Vertex(p) => r.push(*p),
                    _ => unreached(),
                }
            }
            proof {
                assert forall|j: int| 0 <= j < n implies r@[j] == edge_points(m)[j] by {}
                assert(r@ =~= edge_points(m));
            }
            r
        },
        _ => unreached(),
    }
}

/// The boundary points of one edge, in order.
pub(crate) fn edge_points_vec(e: &Edge) -> (r: Vec<Point>)
    requires
        typed_inv(*e),
    ensures
        r@ == edge_points(typed_model(*e)),
{
    match e.as_shape().node_ref() {
        Option::Some(n) => edge_node_points(n),
        Option::None => unreached(),
    }
}

/// The point of one vertex node.
pub(crate) fn node_point(n: &Node) -> (p: Point)
    requires
        kind_of(view_node(*n)) == ShapeType::Vertex,
    ensures
        p == vertex_point(view_node(*n)),
{
    match &n.data {
        TopoData::Vertex(p) => *p,
        _ => unreached(),
    }
}

/// The boundary vertex nodes of one edge node, as handle copies, in order.
fn edge_node_vertices(node: &Node) -> (r: Vec<Node>)
    requires
        wf(view_node(*node)),
        kind_of(view_node(*node)) == ShapeType::Edge,
    ensures
        view_nodes(r@) == children_of(view_node(*node)),
{
    let ghost m = view_node(*node);
    match &node.data {
        TopoData::Edge(_, ch) => {
            proof {
                lemma_view_nodes_len(ch@);
            }
            let n = ch.len();
            let mut r: Vec<Node> = Vec::new();
            for i in 0..n
                invariant
                    n == ch@.len(),
                    view_nodes(ch@).len() == n,
                    children_of(m) == view_nodes(ch@),
                    r@.len() == i,
                    forall|j: int| 0 <= j < i ==> view_node(#[trigger] r@[j]) == view_nodes(ch@)[j],
            {
                proof {
                    lemma_view_nodes_index(ch@, i as int);
                }
                let c = copy_node(&ch[i]);
                r.push(c);
            }
            proof {
                lemma_view_nodes_len(r@);
                assert forall|j: int| 0 <= j < n implies view_nodes(r@)[j] == children_of(m)[j] by {
                    lemma_view_nodes_index(r@, j);
                }
                assert(view_nodes(r@) =~= children_of(m));
            }
            r
        },
        _ => unreached(),
    }
}

/// Append handle copies of the elements of `more` to `out`, in order.
fn append_nodes(out: &mut Vec<Node>, more: &Vec<Node>)
    ensures
        view_nodes(final(out)@) == view_nodes(old(out)@) + view_nodes(more@),
{
    proof {
        lemma_view_nodes_len(more@);
        assert(view_nodes(more@).subrange(0, 0) =~= Seq::<NodeModel>::empty());
        assert(view_nodes(out@) =~= view_nodes(old(out)@) + view_nodes(more@).subrange(0, 0));
    }
    let n = more.len();
    for i in 0..n
        invariant
            n == more@.len(),
            view_nodes(more@).len() == n,
            view_nodes(out@) == view_nodes(old(out)@) + view_nodes(more@).subrange(0, i as int),
    {
        let ghost before = out@;
        let c = copy_node(&more[i]);
        proof {
            crate::topo::lemma_view_nodes_push(before, c);
        }
        out.push(c);
        proof {
            lemma_view_nodes_index(more@, i as int);
            assert(view_nodes(more@).subrange(0, i + 1) =~= view_nodes(more@).subrange(
                0,
                i as int,
            ).push(view_nodes(more@)[i as int]));
            assert(view_nodes(out@) =~= view_nodes(old(out)@) + view_nodes(more@).subrange(
                0,
                i + 1,
            ));
        }
    }
    proof {
        assert(view_nodes(more@).subrange(0, view_nodes(more@).len() as int) =~= view_nodes(
            more@,
        ));
    }
}

/// A handle copy of the first vertex among `vs` at the point `p`.
fn first_vertex_copy(vs: &Vec<Node>, p: &Point) -> (r: Node)
    requires
        forall|j: int|
            0 <= j < view_nodes(vs@).len() ==> kind_of(#[trigger] view_nodes(vs@)[j])
                == ShapeType::Vertex,
        exists|j: int|
            0 <= j < view_nodes(vs@).len() && vertex_point(#[trigger] view_nodes(vs@)[j]) == *p,
    ensures
        view_node(r) == first_vertex_at(view_nodes(vs@), *p),
{
    proof {
        lemma_view_nodes_len(vs@);
    }
    let n = vs.len();
    for i in 0..n
        invariant
            n == vs@.len(),
            view_nodes(vs@).len() == n,
            forall|j: int|
                0 <= j < view_nodes(vs@).len() ==> kind_of(#[trigger] view_nodes(vs@)[j])
                    == ShapeType::Vertex,
            exists|j: int|
                0 <= j < view_nodes(vs@).len() && vertex_point(#[trigger] view_nodes(vs@)[j])
                    == *p,
            forall|j: int| 0 <= j < i ==> vertex_point(#[trigger] view_nodes(vs@)[j]) != *p,
    {
        proof {
            lemma_view_nodes_index(vs@, i as int);
        }
        let q = node_point(&vs[i]);
        if q == *p {
            proof {
                lemma_first_vertex_found(view_nodes(vs@), *p, i as int);
            }
            return copy_node(&vs[i]);
        }
    }
    proof {
        let j = choose|j: int|
            0 <= j < view_nodes(vs@).len() && vertex_point(#[trigger] view_nodes(vs@)[j]) == *p;
        assert(false);
    }
    unreached()
}

/// The given edge with its boundary vertices replaced by their first
/// occurrences among `vs`: the sewn edge shares each coincident vertex
/// entity with the edges before it.
fn sew_edge(edge: &Node, vs: &Vec<Node>) -> (r: Node)
    requires
        wf(view_node(*edge)),
        kind_of(view_node(*edge)) == ShapeType::Edge,
        forall|j: int|
            0 <= j < view_nodes(vs@).len() ==> kind_of(#[trigger] view_nodes(vs@)[j])
                == ShapeType::Vertex && wf(view_nodes(vs@)[j]),
        forall|i: int|
            0 <= i < children_of(view_node(*edge)).len() ==> exists|j: int|
                0 <= j < view_nodes(vs@).len() && vertex_point(#[trigger] view_nodes(vs@)[j])
                    == vertex_point(#[trigger] children_of(view_node(*edge))[i]),
    ensures
        view_node(r) == sewn_edge(view_node(*edge), view_nodes(vs@)),
        wf(view_node(r)),
        kind_of(view_node(r)) == ShapeType::Edge,
{
    let ghost m = view_node(*edge);
    let ghost vms = view_nodes(vs@);
    match &edge.data {
        TopoData::Edge(g, ch) => {
            proof {
                lemma_view_nodes_len(ch@);
                reveal_with_fuel(wf, 2);
                reveal_with_fuel(wf_children, 2);
            }
            let n = ch.len();
            let mut newch: Vec<Node> = Vec::new();
            for i in 0..n
                invariant
                    n == ch@.len(),
                    view_nodes(ch@).len() == n,
                    children_of(m) == view_nodes(ch@),
                    wf(m),
                    kind_of(m) == ShapeType::Edge,
                    vms == view_nodes(vs@),
                    forall|j: int|
                        0 <= j < vms.len() ==> kind_of(#[trigger] vms[j]) == ShapeType::Vertex
                            && wf(vms[j]),
                    forall|i2: int|
                        0 <= i2 < children_of(m).len() ==> exists|j: int|
                            0 <= j < vms.len() && vertex_point(#[trigger] vms[j]) == vertex_point(
                                #[trigger] children_of(m)[i2],
                            ),
                    newch@.len() == i,
                    forall|j: int|
                        0 <= j < i ==> view_node(#[trigger] newch@[j]) == first_vertex_at(
                            vms,
                            vertex_point(children_of(m)[j]),
                        ),
            {
                proof {
                    lemma_view_nodes_index(ch@, i as int);
                    reveal_with_fuel(wf, 2);
                    reveal_with_fuel(wf_children, 2);
                    assert(kind_of(children_of(m)[i as int]) == ShapeType::Vertex);
                }
                let p = node_point(&ch[i]);
                let c = first_vertex_copy(vs, &p);
                newch.push(c);
            }
            proof {
                lemma_view_nodes_len(newch@);
                let mapped = children_of(m).map_values(
                    |c: NodeModel| first_vertex_at(vms, vertex_point(c)),
                );
                assert forall|j: int| 0 <= j < n implies view_nodes(newch@)[j] == mapped[j] by {
                    lemma_view_nodes_index(newch@, j);
                }
                assert(view_nodes(newch@) =~= mapped);
                reveal_with_fuel(wf, 2);
                reveal_with_fuel(wf_children, 2);
                assert forall|j: int| 0 <= j < n implies wf(#[trigger] mapped[j]) && kind_of(
                    mapped[j],
                ) == ShapeType::Vertex && vertex_point(mapped[j]) == vertex_point(
                    children_of(m)[j],
                ) by {
                    lemma_first_vertex_present(vms, vertex_point(children_of(m)[j]));
                    let k = choose|k: int| 0 <= k < vms.len() && vms[k] == mapped[j];
                }
            }
            let r = Node {
                id: edge.id,
                orient: edge.orient,
                location: edge.location,
                data: TopoData::Edge(*g, newch),
            };
            proof {
                reveal_with_fuel(wf, 2);
                reveal_with_fuel(wf_children, 2);
            }
            r
        },
        _ => unreached(),
    }
}

/// Append the elements of `more` to `pts`, in order.
pub(crate) fn append_points(pts: &mut Vec<Point>, more: &Vec<Point>)
    ensures
        final(pts)@ == old(pts)@ + more@,
{
    proof {
        assert(pts@ =~= pts@ + more@.take(0));
    }
    let n = more.len();
    for i in 0..n
        invariant
            n == more@.len(),
            pts@ == old(pts)@ + more@.take(i as int),
    {
        pts.push(more[i]);
        proof {
            assert(old(pts)@ + more@.take(i + 1) =~= (old(pts)@ + more@.take(i as int)).push(
                more@[i as int],
            ));
        }
    }
    proof {
        assert(more@.take(more@.len() as int) =~= more@);
    }
}

impl Wire {
    /// Accumulate the given edges into a wire, as one new kernel entity;
    /// boundary vertices at the same point are sewn into one shared vertex
    /// entity, as the kernel's wire algorithm does.
    ///
    /// The verdict is exactly [`wire_verdict`] over the edges' models: no
    /// edge gives [`WireError::EmptyWire`]; an edge sharing no boundary
    /// point with those before it gives [`WireError::DisconnectedWire`]; a
    /// point joining three or more edge ends gives
    /// [`WireError::NonManifoldWire`]; on failure nothing is allocated.
    pub fn from_edges(kernel: &mut Kernel, edges: &Vec<Edge>) -> (r: Result<Wire, WireError>)
        requires
            old(kernel).issued() + 1 < 0x1_0000_0000_0000_0000,
            forall|i: int| 0 <= i < edges@.len() ==> typed_inv(#[trigger] edges@[i]),
        ensures
            ({
                let ms = edges@.map_values(|e: Edge| typed_model(e));
                match r {
                    Result::Ok(w) => wire_verdict(ms) is Ok && typed_inv(w) && w.shape_view()
                        == Option::Some(
                        wire_node(old(kernel).issued() as u64, sewn_edges(ms)),
                    ) && final(kernel).issued() == old(kernel).issued() + 1,
                    Result::Err(err) => wire_verdict(ms) == Result::<(), WireError>::Err(err)
                        && final(kernel).issued() == old(kernel).issued(),
                }
            }),
    {
        let ghost ms = edges@.map_values(|e: Edge| typed_model(e));
        let n_edges = edges.len();
        if n_edges == 0 {
            return Result::Err(WireError::EmptyWire);
        }
        let mut pts: Vec<Point> = Vec::new();
        proof {
            assert(ms.take(0) =~= Seq::<NodeModel>::empty());
            assert(pts@ =~= edges_points(ms.take(0)));
        }
        for i in 0..n_edges
            invariant
                n_edges == edges@.len(),
                n_edges > 0,
                ms == edges@.map_values(|e: Edge| typed_model(e)),
                forall|j: int| 0 <= j < edges@.len() ==> typed_inv(#[trigger] edges@[j]),
                pts@ == edges_points(ms.take(i as int)),
                forall|j: int| 1 <= j < i ==> connected_at(ms, j),
        {
            let epts = edge_points_vec(&edges[i]);
            if i > 0 {
                if !shares_any(&pts, &epts) {
                    proof {
                        assert(!connected_at(ms, i as int));
                        assert(wire_verdict(ms) == Result::<(), WireError>::Err(
                            WireError::DisconnectedWire,
                        ));
                    }
                    return Result::Err(WireError::DisconnectedWire);
                }
            }
            append_points(&mut pts, &epts);
            proof {
                assert(ms.take(i + 1).drop_last() =~= ms.take(i as int));
                assert(ms.take(i + 1).last() == ms[i as int]);
                assert(pts@ =~= edges_points(ms.take(i + 1)));
                assert forall|j: int| 1 <= j < i + 1 implies connected_at(ms, j) by {
                    if j == i {
                        assert(connects_to(edges_points(ms.take(i as int)), ms[i as int]));
                    }
                }
            }
        }
        proof {
            assert(ms.take(n_edges as int) =~= ms);
        }
        let total = pts.len();
        for a in 0..total
            invariant
                total == pts@.len(),
                n_edges == edges@.len(),
                n_edges > 0,
                ms == edges@.map_values(|e: Edge| typed_model(e)),
                forall|j: int| 0 <= j < edges@.len() ==> typed_inv(#[trigger] edges@[j]),
                pts@ == edges_points(ms),
                forall|j: int| 1 <= j < n_edges ==> connected_at(ms, j),
                forall|b: int| 0 <= b < a ==> occ(pts@, #[trigger] pts@[b]) < 3,
        {
            let c = count_occ(&pts, &pts[a]);
            if c >= 3 {
                proof {
                    assert(occ(edges_points(ms), pts@[a as int]) >= 3);
                    assert(wire_verdict(ms) == Result::<(), WireError>::Err(
                        WireError::NonManifoldWire,
                    ));
                }
                return Result::Err(WireError::NonManifoldWire);
            }
        }
        proof {
            assert forall|p: Point| !(occ(edges_points(ms), p) >= 3) by {
                if occ(pts@, p) >= 3 {
                    lemma_occ_positive(pts@, p);
                    let b = choose|b: int| 0 <= b < pts@.len() && pts@[b] == p;
                    assert(occ(pts@, pts@[b]) < 3);
                }
            }
            assert(wire_verdict(ms) is Ok);
        }
        // gather the chain's boundary vertices, then sew each edge over them
        let mut all_vs: Vec<Node> = Vec::new();
        proof {
            assert(ms.take(0) =~= Seq::<NodeModel>::empty());
            assert(view_nodes(all_vs@) =~= edges_vertices(ms.take(0)));
        }
        for i in 0..n_edges
            invariant
                n_edges == edges@.len(),
                ms == edges@.map_values(|e: Edge| typed_model(e)),
                forall|j: int| 0 <= j < edges@.len() ==> typed_inv(#[trigger] edges@[j]),
                view_nodes(all_vs@) == edges_vertices(ms.take(i as int)),
        {
            let evs = match edges[i].as_shape().node_ref() {
                Option::Some(n) => edge_node_vertices(n),
                Option::None => unreached(),
            };
            append_nodes(&mut all_vs, &evs);
            proof {
                assert(ms.take(i + 1).drop_last() =~= ms.take(i as int));
                assert(ms.take(i + 1).last() == ms[i as int]);
                assert(view_nodes(all_vs@) =~= edges_vertices(ms.take(i + 1)));
            }
        }
        proof {
            assert(ms.take(n_edges as int) =~= ms);
            assert forall|i: int| 0 <= i < ms.len() implies wf(#[trigger] ms[i]) && kind_of(
                ms[i],
            ) == ShapeType::Edge by {}
            lemma_edges_vertices_wf(ms);
        }
        let mut children: Vec<Node> = Vec::new();
        for i in 0..n_edges
            invariant
                n_edges == edges@.len(),
                ms == edges@.map_values(|e: Edge| typed_model(e)),
                forall|j: int| 0 <= j < edges@.len() ==> typed_inv(#[trigger] edges@[j]),
                view_nodes(all_vs@) == edges_vertices(ms),
                forall|j: int|
                    0 <= j < edges_vertices(ms).len() ==> kind_of(
                        #[trigger] edges_vertices(ms)[j],
                    ) == ShapeType::Vertex && wf(edges_vertices(ms)[j]),
                children@.len() == i,
                forall|j: int|
                    0 <= j < i ==> view_node(#[trigger] children@[j]) == sewn_edge(
                        ms[j],
                        edges_vertices(ms),
                    ) && wf(view_node(children@[j])) && kind_of(view_node(children@[j]))
                        == ShapeType::Edge,
        {
            proof {
                assert forall|j: int|
                    0 <= j < children_of(ms[i as int]).len() implies exists|k: int|
                    0 <= k < view_nodes(all_vs@).len() && vertex_point(
                        #[trigger] view_nodes(all_vs@)[k],
                    ) == vertex_point(#[trigger] children_of(ms[i as int])[j]) by {
                    lemma_edges_vertices_contains(ms, i as int, j);
                    let k = choose|k: int|
                        0 <= k < edges_vertices(ms).len() && edges_vertices(ms)[k] == children_of(
                            ms[i as int],
                        )[j];
                }
            }
            let c = match edges[i].as_shape().node_ref() {
                Option::Some(n) => sew_edge(n, &all_vs),
                Option::None => unreached(),
            };
            children.push(c);
        }
        proof {
            lemma_view_nodes_len(children@);
            assert forall|j: int| 0 <= j < n_edges implies view_nodes(children@)[j] == sewn_edges(
                ms,
            )[j] by {
                lemma_view_nodes_index(children@, j);
            }
            assert(view_nodes(children@) =~= sewn_edges(ms));
            reveal_with_fuel(wf, 2);
            reveal_with_fuel(wf_children, 2);
            assert forall|j: int| 0 <= j < sewn_edges(ms).len() implies wf(
                #[trigger] sewn_edges(ms)[j],
            ) && kind_of(sewn_edges(ms)[j]) == ShapeType::Edge by {
                lemma_view_nodes_index(children@, j);
            }
        }
        let wid = kernel.fresh();
        let node = Node {
            id: wid,
            orient: Orientation::Forward,
            location: Transformation::default(),
            data: TopoData::Wire(children),
        };
        Result::Ok(Wire::wrap(Shape::from_node(node)))
    }
}

} // verus!
