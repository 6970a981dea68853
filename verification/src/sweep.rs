//! The sweep operators: linear sweep (prism) along a vector and rotational
//! sweep (revolution) about an axis.
//!
//! Each sweep raises the dimension by one: a vertex sweeps to an edge, an
//! edge to a face, a wire to a shell, a face to a solid, a shell to a
//! composite solid. The model tracks the swept entity and its generator:
//! the source sub-shape stays, with its identity, inside the result, and a
//! swept vertex also gets the far endpoint of the edge it traces. Lateral
//! and opposite-end sub-shapes of a sweep are not tracked by the model.

use vstd::prelude::*;

use crate::kernel::Kernel;
use crate::math::{Angle, Axis1, Point, Vector};
use crate::shape::{typed_inv, typed_model, IsShape, Shape};
use crate::topo::{
    copy_node, kind_of, vertex_point, view_node, view_nodes, wf, wf_children, EdgeGeom, Node,
    NodeModel, Orientation, ShapeType, TopoData, TopoModel,
};
use crate::transform::Transformation;
use crate::variant::{CompSolid, Edge, Face, Shell, Solid, Vertex, Wire};

verus! {

/// Sweep construction error: the kernel reports no finer cause.
#[derive(Clone, Copy, Debug)]
pub struct PrimError;

/// Whether the point stays within coordinate range when moved by `w`.
pub open spec fn point_fits(p: Point, w: Vector) -> bool {
    &&& -0x8000_0000 <= p.x + w.x <= 0x7fff_ffff
    &&& -0x8000_0000 <= p.y + w.y <= 0x7fff_ffff
    &&& -0x8000_0000 <= p.z + w.z <= 0x7fff_ffff
}

/// The point moved by `w`.
pub open spec fn moved_point(p: Point, w: Vector) -> Point
    recommends
        point_fits(p, w),
{
    Point { x: (p.x + w.x) as i32, y: (p.y + w.y) as i32, z: (p.z + w.z) as i32 }
}

/// Whether the sweep of `m` along `w` stays in coordinate range: only a
/// swept vertex adds a moved point.
pub open spec fn prism_fits(m: NodeModel, w: Vector) -> bool {
    kind_of(m) == ShapeType::Vertex ==> point_fits(vertex_point(m), w)
}

/// The model of the prism swept when `m` moves along `w`: an entity one
/// dimension up (identity `id0`) holding its generator `m`; a swept vertex
/// traces a segment, whose far endpoint is a new vertex entity (identity
/// `id1`); for the other kinds `id1` names the single inner boundary
/// entity wrapped around the generator.
pub open spec fn prism_of(m: NodeModel, w: Vector, id0: u64, id1: u64) -> NodeModel
    recommends
        kind_of(m) != ShapeType::Solid,
        kind_of(m) != ShapeType::Compsolid,
        kind_of(m) != ShapeType::Compound,
{
    let f = Orientation::Forward;
    let loc = Transformation::identity();
    match m.data {
        TopoModel::Vertex(p) => NodeModel {
            id: id0,
            orient: f,
            location: loc,
            data: TopoModel::Edge(
                EdgeGeom::Segment,
                seq![
                    m,
                    NodeModel {
                        id: id1,
                        orient: f,
                        location: loc,
                        data: TopoModel::Vertex(moved_point(p, w)),
                    },
                ],
            ),
        },
        TopoModel::Edge(_, _) => NodeModel {
            id: id0,
            orient: f,
            location: loc,
            data: TopoModel::Face(
                seq![NodeModel { id: id1, orient: f, location: loc, data: TopoModel::Wire(seq![m]) }],
            ),
        },
        TopoModel::Wire(_) => NodeModel {
            id: id0,
            orient: f,
            location: loc,
            data: TopoModel::Shell(
                seq![NodeModel { id: id1, orient: f, location: loc, data: TopoModel::Face(seq![m]) }],
            ),
        },
        TopoModel::Face(_) => NodeModel {
            id: id0,
            orient: f,
            location: loc,
            data: TopoModel::Solid(
                seq![
                    NodeModel { id: id1, orient: f, location: loc, data: TopoModel::Shell(seq![m]) },
                ],
            ),
        },
        TopoModel::Shell(_) => NodeModel {
            id: id0,
            orient: f,
            location: loc,
            data: TopoModel::CompSolid(
                seq![
                    NodeModel { id: id1, orient: f, location: loc, data: TopoModel::Solid(seq![m]) },
                ],
            ),
        },
        _ => m,
    }
}

/// The model of the revolution swept when `m` turns about `axis` by
/// `angle`: an entity one dimension up (identity `id0`) holding its
/// generator `m`; a revolved vertex traces an arc bounded by the generator
/// itself; for the other kinds `id1` names the single inner boundary
/// entity wrapped around the generator.
pub open spec fn revol_of(m: NodeModel, axis: Axis1, angle: Angle, id0: u64, id1: u64) -> NodeModel
    recommends
        kind_of(m) != ShapeType::Solid,
        kind_of(m) != ShapeType::Compsolid,
        kind_of(m) != ShapeType::Compound,
{
    let f = Orientation::Forward;
    let loc = Transformation::identity();
    match m.data {
        TopoModel::Vertex(_) => NodeModel {
            id: id0,
            orient: f,
            location: loc,
            data: TopoModel::Edge(EdgeGeom::Arc(axis, angle), seq![m]),
        },
        TopoModel::Edge(_, _) => NodeModel {
            id: id0,
            orient: f,
            location: loc,
            data: TopoModel::Face(
                seq![NodeModel { id: id1, orient: f, location: loc, data: TopoModel::Wire(seq![m]) }],
            ),
        },
        TopoModel::Wire(_) => NodeModel {
            id: id0,
            orient: f,
            location: loc,
            data: TopoModel::Shell(
                seq![NodeModel { id: id1, orient: f, location: loc, data: TopoModel::Face(seq![m]) }],
            ),
        },
        TopoModel::Face(_) => NodeModel {
            id: id0,
            orient: f,
            location: loc,
            data: TopoModel::Solid(
                seq![
                    NodeModel { id: id1, orient: f, location: loc, data: TopoModel::Shell(seq![m]) },
                ],
            ),
        },
        TopoModel::Shell(_) => NodeModel {
            id: id0,
            orient: f,
            location: loc,
            data: TopoModel::CompSolid(
                seq![
                    NodeModel { id: id1, orient: f, location: loc, data: TopoModel::Solid(seq![m]) },
                ],
            ),
        },
        _ => m,
    }
}

/// Move one point, watching the coordinate range.
fn move_point(p: &Point, w: &Vector) -> (r: Option<Point>)
    ensures
        match r {
            Option::Some(q) => point_fits(*p, *w) && q == moved_point(*p, *w),
            Option::None => !point_fits(*p, *w),
        },
{
    let x = (p.x as i64) + (w.x as i64);
    let y = (p.y as i64) + (w.y as i64);
    let z = (p.z as i64) + (w.z as i64);
    if x < -0x8000_0000 || x > 0x7fff_ffff || y < -0x8000_0000 || y > 0x7fff_ffff || z
        < -0x8000_0000 || z > 0x7fff_ffff {
        return Option::None;
    }
    Option::Some(Point { x: x as i32, y: y as i32, z: z as i32 })
}

/// A one-element child list.
fn single_child(a: Node) -> (v: Vec<Node>)
    ensures
        view_nodes(v@) == seq![view_node(a)],
{
    let ghost ma = view_node(a);
    let mut v: Vec<Node> = Vec::new();
    v.push(a);
    proof {
        reveal_with_fuel(view_nodes, 2);
        assert(v@.subrange(1, 1) =~= Seq::<Node>::empty());
        assert(view_nodes(v@) =~= seq![ma]);
    }
    v
}

/// A two-element child list.
fn pair_children(a: Node, b: Node) -> (v: Vec<Node>)
    ensures
        view_nodes(v@) == seq![view_node(a), view_node(b)],
{
    let ghost ma = view_node(a);
    let ghost mb = view_node(b);
    let mut v: Vec<Node> = Vec::new();
    v.push(a);
    v.push(b);
    proof {
        reveal_with_fuel(view_nodes, 3);
        assert(v@.subrange(1, 2).subrange(1, 1) =~= Seq::<Node>::empty());
        assert(v@.subrange(1, 2)[0] == v@[1]);
        assert(view_nodes(v@) =~= seq![ma, mb]);
    }
    v
}

/// Build the prism of a source node along `w`, as two new kernel entities;
/// `None` when `w` vanishes or the swept point leaves the range, and then
/// nothing is allocated.
fn prism_node(kernel: &mut Kernel, n: &Node, w: &Vector) -> (r: Option<Node>)
    requires
        old(kernel).issued() + 2 < 0x1_0000_0000_0000_0000,
        wf(view_node(*n)),
        kind_of(view_node(*n)) != ShapeType::Solid,
        kind_of(view_node(*n)) != ShapeType::Compsolid,
        kind_of(view_node(*n)) != ShapeType::Compound,
    ensures
        match r {
            Option::Some(t) => !w.is_zero() && prism_fits(view_node(*n), *w) && view_node(t)
                == prism_of(
                view_node(*n),
                *w,
                old(kernel).issued() as u64,
                (old(kernel).issued() + 1) as u64,
            ) && wf(view_node(t)) && final(kernel).issued() == old(kernel).issued() + 2,
            Option::None => (w.is_zero() || !prism_fits(view_node(*n), *w)) && final(kernel).issued() == old(kernel).issued(),
        },
{
    let ghost m = view_node(*n);
    if w.x == 0 && w.y == 0 && w.z == 0 {
        return Option::None;
    }
    proof {
        reveal_with_fuel(wf, 4);
        reveal_with_fuel(wf_children, 4);
    }
    let f = Orientation::Forward;
    let node = match &n.data {
        TopoData::Vertex(p) => {
            let q = match move_point(p, w) {
                Option::Some(q) => q,
                Option::None => {
                    return Option::None;
                },
            };
            let id0 = kernel.fresh();
            let id1 = kernel.fresh();
            let gen = copy_node(n);
            let far = Node {
                id: id1,
                orient: f,
                location: Transformation::default(),
                data: TopoData::Vertex(q),
            };
            proof {
                assert(vertex_point(view_node(far)) != vertex_point(m));
            }
            Node {
                id: id0,
                orient: f,
                location: Transformation::default(),
                data: TopoData::Edge(EdgeGeom::Segment, pair_children(gen, far)),
            }
        },
        TopoData::Edge(_, _) => {
            let id0 = kernel.fresh();
            let id1 = kernel.fresh();
            let wire = Node {
                id: id1,
                orient: f,
                location: Transformation::default(),
                data: TopoData::Wire(single_child(copy_node(n))),
            };
            Node {
                id: id0,
                orient: f,
                location: Transformation::default(),
                data: TopoData::Face(single_child(wire)),
            }
        },
        TopoData::Wire(_) => {
            let id0 = kernel.fresh();
            let id1 = kernel.fresh();
            let face = Node {
                id: id1,
                orient: f,
                location: Transformation::default(),
                data: TopoData::Face(single_child(copy_node(n))),
            };
            Node {
                id: id0,
                orient: f,
                location: Transformation::default(),
                data: TopoData::Shell(single_child(face)),
            }
        },
        TopoData::Face(_) => {
            let id0 = kernel.fresh();
            let id1 = kernel.fresh();
            let shell = Node {
                id: id1,
                orient: f,
                location: Transformation::default(),
                data: TopoData::Shell(single_child(copy_node(n))),
            };
            Node {
                id: id0,
                orient: f,
                location: Transformation::default(),
                data: TopoData::Solid(single_child(shell)),
            }
        },
        TopoData::Shell(_) => {
            let id0 = kernel.fresh();
            let id1 = kernel.fresh();
            let solid = Node {
                id: id1,
                orient: f,
                location: Transformation::default(),
                data: TopoData::Solid(single_child(copy_node(n))),
            };
            Node {
                id: id0,
                orient: f,
                location: Transformation::default(),
                data: TopoData::CompSolid(single_child(solid)),
            }
        },
        _ => unreached(),
    };
    Option::Some(node)
}

/// Build the revolution of a source node about `axis` by `angle`, as one or
/// two new kernel entities; `None` when the angle vanishes, and then
/// nothing is allocated.
fn revol_node(kernel: &mut Kernel, n: &Node, axis: &Axis1, angle: &Angle) -> (r: Option<Node>)
    requires
        old(kernel).issued() + 2 < 0x1_0000_0000_0000_0000,
        wf(view_node(*n)),
        kind_of(view_node(*n)) != ShapeType::Solid,
        kind_of(view_node(*n)) != ShapeType::Compsolid,
        kind_of(view_node(*n)) != ShapeType::Compound,
    ensures
        match r {
            Option::Some(t) => angle.value_spec() != 0 && view_node(t) == revol_of(
                view_node(*n),
                *axis,
                *angle,
                old(kernel).issued() as u64,
                (old(kernel).issued() + 1) as u64,
            ) && wf(view_node(t)) && final(kernel).issued() == old(kernel).issued() + (
            if kind_of(view_node(*n)) == ShapeType::Vertex {
                1int
            } else {
                2int
            }),
            Option::None => angle.value_spec() == 0 && final(kernel).issued() == old(kernel).issued(),
        },
{
    let ghost m = view_node(*n);
    if *angle.raw() == 0 {
        return Option::None;
    }
    proof {
        reveal_with_fuel(wf, 4);
        reveal_with_fuel(wf_children, 4);
    }
    let f = Orientation::Forward;
    let node = match &n.data {
        TopoData::Vertex(_) => {
            let id0 = kernel.fresh();
            Node {
                id: id0,
                orient: f,
                location: Transformation::default(),
                data: TopoData::Edge(EdgeGeom::Arc(*axis, *angle), single_child(copy_node(n))),
            }
        },
        TopoData::Edge(_, _) => {
            let id0 = kernel.fresh();
            let id1 = kernel.fresh();
            let wire = Node {
                id: id1,
                orient: f,
                location: Transformation::default(),
                data: TopoData::Wire(single_child(copy_node(n))),
            };
            Node {
                id: id0,
                orient: f,
                location: Transformation::default(),
                data: TopoData::Face(single_child(wire)),
            }
        },
        TopoData::Wire(_) => {
            let id0 = kernel.fresh();
            let id1 = kernel.fresh();
            let face = Node {
                id: id1,
                orient: f,
                location: Transformation::default(),
                data: TopoData::Face(single_child(copy_node(n))),
            };
            Node {
                id: id0,
                orient: f,
                location: Transformation::default(),
                data: TopoData::Shell(single_child(face)),
            }
        },
        TopoData::Face(_) => {
            let id0 = kernel.fresh();
            let id1 = kernel.fresh();
            let shell = Node {
                id: id1,
                orient: f,
                location: Transformation::default(),
                data: TopoData::Shell(single_child(copy_node(n))),
            };
            Node {
                id: id0,
                orient: f,
                location: Transformation::default(),
                data: TopoData::Solid(single_child(shell)),
            }
        },
        TopoData::Shell(_) => {
            let id0 = kernel.fresh();
            let id1 = kernel.fresh();
            let solid = Node {
                id: id1,
                orient: f,
                location: Transformation::default(),
                data: TopoData::Solid(single_child(copy_node(n))),
            };
            Node {
                id: id0,
                orient: f,
                location: Transformation::default(),
                data: TopoData::CompSolid(single_child(solid)),
            }
        },
        _ => unreached(),
    };
    Option::Some(node)
}

impl Vertex {
    /// Sweep this vertex along `v`: the edge it traces. Fails exactly when
    /// `v` vanishes or the swept point leaves the range.
    pub fn extrude(&self, kernel: &mut Kernel, v: &Vector) -> (r: Result<Edge, PrimError>)
        requires
            old(kernel).issued() + 2 < 0x1_0000_0000_0000_0000,
            typed_inv(*self),
        ensures
            match r {
                Result::Ok(e) => !v.is_zero() && prism_fits(typed_model(*self), *v) && typed_inv(e)
                    && e.shape_view() == Option::Some(
                    prism_of(
                        typed_model(*self),
                        *v,
                        old(kernel).issued() as u64,
                        (old(kernel).issued() + 1) as u64,
                    ),
                ) && final(kernel).issued() == old(kernel).issued() + 2,
                Result::Err(_) => (v.is_zero() || !prism_fits(typed_model(*self), *v)) && final(kernel).issued() == old(kernel).issued(),
            },
    {
        let node = match self.as_shape().node_ref() {
            Option::Some(n) => n,
            Option::None => unreached(),
        };
        match prism_node(kernel, node, v) {
            Option::Some(t) => Result::Ok(Edge::wrap(Shape::from_node(t))),
            Option::None => Result::Err(PrimError),
        }
    }

    /// Revolve this vertex about `axis` by `angle`: the arc edge it traces.
    /// Fails exactly when the angle vanishes.
    pub fn revolve(&self, kernel: &mut Kernel, axis: &Axis1, angle: &Angle) -> (r: Result<
        Edge,
        PrimError,
    >)
        requires
            old(kernel).issued() + 2 < 0x1_0000_0000_0000_0000,
            typed_inv(*self),
            !axis.dir.is_zero(),
        ensures
            match r {
                Result::Ok(e) => angle.value_spec() != 0 && typed_inv(e) && e.shape_view()
                    == Option::Some(
                    revol_of(
                        typed_model(*self),
                        *axis,
                        *angle,
                        old(kernel).issued() as u64,
                        (old(kernel).issued() + 1) as u64,
                    ),
                ) && final(kernel).issued() == old(kernel).issued() + 1,
                Result::Err(_) => angle.value_spec() == 0 && final(kernel).issued() == old(kernel).issued(),
            },
    {
        let node = match self.as_shape().node_ref() {
            Option::Some(n) => n,
            Option::None => unreached(),
        };
        match revol_node(kernel, node, axis, angle) {
            Option::Some(t) => Result::Ok(Edge::wrap(Shape::from_node(t))),
            Option::None => Result::Err(PrimError),
        }
    }
}

impl Edge {
    /// Sweep this edge along `v`: the face it traces. Fails exactly when
    /// `v` vanishes.
    pub fn extrude(&self, kernel: &mut Kernel, v: &Vector) -> (r: Result<Face, PrimError>)
        requires
            old(kernel).issued() + 2 < 0x1_0000_0000_0000_0000,
            typed_inv(*self),
        ensures
            match r {
                Result::Ok(f) => !v.is_zero() && typed_inv(f) && f.shape_view() == Option::Some(
                    prism_of(
                        typed_model(*self),
                        *v,
                        old(kernel).issued() as u64,
                        (old(kernel).issued() + 1) as u64,
                    ),
                ) && final(kernel).issued() == old(kernel).issued() + 2,
                Result::Err(_) => v.is_zero() && final(kernel).issued() == old(kernel).issued(),
            },
    {
        let node = match self.as_shape().node_ref() {
            Option::Some(n) => n,
            Option::None => unreached(),
        };
        match prism_node(kernel, node, v) {
            Option::Some(t) => Result::Ok(Face::wrap(Shape::from_node(t))),
            Option::None => Result::Err(PrimError),
        }
    }

    /// Revolve this edge about `axis` by `angle`: the face it traces.
    /// Fails exactly when the angle vanishes.
    pub fn revolve(&self, kernel: &mut Kernel, axis: &Axis1, angle: &Angle) -> (r: Result<
        Face,
        PrimError,
    >)
        requires
            old(kernel).issued() + 2 < 0x1_0000_0000_0000_0000,
            typed_inv(*self),
            !axis.dir.is_zero(),
        ensures
            match r {
                Result::Ok(f) => angle.value_spec() != 0 && typed_inv(f) && f.shape_view()
                    == Option::Some(
                    revol_of(
                        typed_model(*self),
                        *axis,
                        *angle,
                        old(kernel).issued() as u64,
                        (old(kernel).issued() + 1) as u64,
                    ),
                ) && final(kernel).issued() == old(kernel).issued() + 2,
                Result::Err(_) => angle.value_spec() == 0 && final(kernel).issued() == old(kernel).issued(),
            },
    {
        let node = match self.as_shape().node_ref() {
            Option::Some(n) => n,
            Option::None => unreached(),
        };
        match revol_node(kernel, node, axis, angle) {
            Option::Some(t) => Result::Ok(Face::wrap(Shape::from_node(t))),
            Option::None => Result::Err(PrimError),
        }
    }
}

impl Wire {
    /// Sweep this wire along `v`: the shell it traces. Fails exactly when
    /// `v` vanishes.
    pub fn extrude(&self, kernel: &mut Kernel, v: &Vector) -> (r: Result<Shell, PrimError>)
        requires
            old(kernel).issued() + 2 < 0x1_0000_0000_0000_0000,
            typed_inv(*self),
        ensures
            match r {
                Result::Ok(s) => !v.is_zero() && typed_inv(s) && s.shape_view() == Option::Some(
                    prism_of(
                        typed_model(*self),
                        *v,
                        old(kernel).issued() as u64,
                        (old(kernel).issued() + 1) as u64,
                    ),
                ) && final(kernel).issued() == old(kernel).issued() + 2,
                Result::Err(_) => v.is_zero() && final(kernel).issued() == old(kernel).issued(),
            },
    {
        let node = match self.as_shape().node_ref() {
            Option::Some(n) => n,
            Option::None => unreached(),
        };
        match prism_node(kernel, node, v) {
            Option::Some(t) => Result::Ok(Shell::wrap(Shape::from_node(t))),
            Option::None => Result::Err(PrimError),
        }
    }

    /// Revolve this wire about `axis` by `angle`: the shell it traces.
    /// Fails exactly when the angle vanishes.
    pub fn revolve(&self, kernel: &mut Kernel, axis: &Axis1, angle: &Angle) -> (r: Result<
        Shell,
        PrimError,
    >)
        requires
            old(kernel).issued() + 2 < 0x1_0000_0000_0000_0000,
            typed_inv(*self),
            !axis.dir.is_zero(),
        ensures
            match r {
                Result::Ok(s) => angle.value_spec() != 0 && typed_inv(s) && s.shape_view()
                    == Option::Some(
                    revol_of(
                        typed_model(*self),
                        *axis,
                        *angle,
                        old(kernel).issued() as u64,
                        (old(kernel).issued() + 1) as u64,
                    ),
                ) && final(kernel).issued() == old(kernel).issued() + 2,
                Result::Err(_) => angle.value_spec() == 0 && final(kernel).issued() == old(kernel).issued(),
            },
    {
        let node = match self.as_shape().node_ref() {
            Option::Some(n) => n,
            Option::None => unreached(),
        };
        match revol_node(kernel, node, axis, angle) {
            Option::Some(t) => Result::Ok(Shell::wrap(Shape::from_node(t))),
            Option::None => Result::Err(PrimError),
        }
    }
}

impl Face {
    /// Sweep this face along `v`: the solid it traces. Fails exactly when
    /// `v` vanishes.
    pub fn extrude(&self, kernel: &mut Kernel, v: &Vector) -> (r: Result<Solid, PrimError>)
        requires
            old(kernel).issued() + 2 < 0x1_0000_0000_0000_0000,
            typed_inv(*self),
        ensures
            match r {
                Result::Ok(s) => !v.is_zero() && typed_inv(s) && s.shape_view() == Option::Some(
                    prism_of(
                        typed_model(*self),
                        *v,
                        old(kernel).issued() as u64,
                        (old(kernel).issued() + 1) as u64,
                    ),
                ) && final(kernel).issued() == old(kernel).issued() + 2,
                Result::Err(_) => v.is_zero() && final(kernel).issued() == old(kernel).issued(),
            },
    {
        let node = match self.as_shape().node_ref() {
            Option::Some(n) => n,
            Option::None => unreached(),
        };
        match prism_node(kernel, node, v) {
            Option::Some(t) => Result::Ok(Solid::wrap(Shape::from_node(t))),
            Option::None => Result::Err(PrimError),
        }
    }

    /// Revolve this face about `axis` by `angle`: the solid it traces.
    /// Fails exactly when the angle vanishes.
    pub fn revolve(&self, kernel: &mut Kernel, axis: &Axis1, angle: &Angle) -> (r: Result<
        Solid,
        PrimError,
    >)
        requires
            old(kernel).issued() + 2 < 0x1_0000_0000_0000_0000,
            typed_inv(*self),
            !axis.dir.is_zero(),
        ensures
            match r {
                Result::Ok(s) => angle.value_spec() != 0 && typed_inv(s) && s.shape_view()
                    == Option::Some(
                    revol_of(
                        typed_model(*self),
                        *axis,
                        *angle,
                        old(kernel).issued() as u64,
                        (old(kernel).issued() + 1) as u64,
                    ),
                ) && final(kernel).issued() == old(kernel).issued() + 2,
                Result::Err(_) => angle.value_spec() == 0 && final(kernel).issued() == old(kernel).issued(),
            },
    {
        let node = match self.as_shape().node_ref() {
            Option::Some(n) => n,
            Option::None => unreached(),
        };
        match revol_node(kernel, node, axis, angle) {
            Option::Some(t) => Result::Ok(Solid::wrap(Shape::from_node(t))),
            Option::None => Result::Err(PrimError),
        }
    }
}

impl Shell {
    /// Sweep this shell along `v`: the composite solid it traces. Fails
    /// exactly when `v` vanishes.
    pub fn extrude(&self, kernel: &mut Kernel, v: &Vector) -> (r: Result<CompSolid, PrimError>)
        requires
            old(kernel).issued() + 2 < 0x1_0000_0000_0000_0000,
            typed_inv(*self),
        ensures
            match r {
                Result::Ok(c) => !v.is_zero() && typed_inv(c) && c.shape_view() == Option::Some(
                    prism_of(
                        typed_model(*self),
                        *v,
                        old(kernel).issued() as u64,
                        (old(kernel).issued() + 1) as u64,
                    ),
                ) && final(kernel).issued() == old(kernel).issued() + 2,
                Result::Err(_) => v.is_zero() && final(kernel).issued() == old(kernel).issued(),
            },
    {
        let node = match self.as_shape().node_ref() {
            Option::Some(n) => n,
            Option::None => unreached(),
        };
        match prism_node(kernel, node, v) {
            Option::Some(t) => Result::Ok(CompSolid::wrap(Shape::from_node(t))),
            Option::None => Result::Err(PrimError),
        }
    }

    /// Revolve this shell about `axis` by `angle`: the composite solid it
    /// traces. Fails exactly when the angle vanishes.
    pub fn revolve(&self, kernel: &mut Kernel, axis: &Axis1, angle: &Angle) -> (r: Result<
        CompSolid,
        PrimError,
    >)
        requires
            old(kernel).issued() + 2 < 0x1_0000_0000_0000_0000,
            typed_inv(*self),
            !axis.dir.is_zero(),
        ensures
            match r {
                Result::Ok(c) => angle.value_spec() != 0 && typed_inv(c) && c.shape_view()
                    == Option::Some(
                    revol_of(
                        typed_model(*self),
                        *axis,
                        *angle,
                        old(kernel).issued() as u64,
                        (old(kernel).issued() + 1) as u64,
                    ),
                ) && final(kernel).issued() == old(kernel).issued() + 2,
                Result::Err(_) => angle.value_spec() == 0 && final(kernel).issued() == old(kernel).issued(),
            },
    {
        let node = match self.as_shape().node_ref() {
            Option::Some(n) => n,
            Option::None => unreached(),
        };
        match revol_node(kernel, node, axis, angle) {
            Option::Some(t) => Result::Ok(CompSolid::wrap(Shape::from_node(t))),
            Option::None => Result::Err(PrimError),
        }
    }
}

} // verus!
