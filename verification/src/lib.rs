//! A typed access layer over a boundary-representation (BRep) geometry
//! kernel model: a kind-tagged shape handle, zero-or-checked-cost conversions
//! between the untyped `Shape` and its typed variants, construction operators
//! for edges, wires, faces and sweeps, and a deduplicating sub-shape index.

mod edge;
mod face;
mod geom;
mod kernel;
mod math;
mod shape;
mod sweep;
mod topo;
mod transform;
mod variant;
mod vertex;
mod wire;

pub use edge::{edge_node, segment_node, EdgeError};
pub use face::{face_node, face_verdict, wire_points, FaceError};
pub use geom::{coplanar, coplanar_check, cross, dot, is_zero3, normal_fits, sub_pt};
pub use kernel::Kernel;
pub use math::{Angle, AngleUnits, Axis1, Axis3, Point, Quaternion, Vector};
pub use shape::{
    lemma_narrow_rejects, lemma_same_entity_equivalence, lemma_widen_kind,
    lemma_widen_narrow_round_trip, narrow_post, same_entity, typed_inv, typed_model, IsShape,
    Ref, Shape, ShapeIter,
};
pub use sweep::{moved_point, point_fits, prism_fits, prism_of, revol_of, PrimError};
pub use topo::{
    children_of, dedup, edge_boundary_ok, kind_of, model_kind, sub_list, sub_list_seq,
    vertex_point, wf, wf_children, EdgeGeom, NodeModel, Orientation, ShapeType, TopoModel,
};
pub use transform::{Transformation, TransformationForm};
pub use variant::{CompSolid, Compound, Edge, Face, Shell, Solid, Vertex, Wire};
pub use vertex::vertex_node;
pub use wire::{
    connected_at, connects_to, edge_points, edges_points, edges_vertices, first_vertex_at, occ,
    sewn_edge, sewn_edges, wire_node, wire_verdict, WireError,
};
