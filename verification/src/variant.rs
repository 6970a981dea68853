//! The typed shape variants: thin wrappers around [`Shape`] whose kind tag
//! is statically known.
//!
//! Each variant is the same single-handle representation as [`Shape`];
//! widening moves the handle out unchanged, narrowing checks the kind tag
//! and moves the handle in. A value of a variant is only ever built with a
//! matching kind, so the wrapped entity can be used without further checks.

use vstd::prelude::*;

use crate::shape::{IsShape, Shape};
use crate::topo::{NodeModel, ShapeType};

verus! {

/// A shape statically known to be of kind `Vertex`: a point in space
pub struct Vertex {
    shape: Shape,
}

impl Vertex {
    /// Retype a shape whose kind was already established.
    pub(crate) fn wrap(s: Shape) -> (t: Vertex)
        ensures
            t.shape_view() == s@,
    {
        Vertex { shape: s }
    }
}

impl IsShape for Vertex {
    open spec fn kind() -> ShapeType {
        ShapeType::Vertex
    }

    closed spec fn shape_view(self) -> Option<NodeModel> {
        self.shape@
    }

    fn shape_type() -> (k: ShapeType) {
        ShapeType::Vertex
    }

    fn widen(self) -> (s: Shape) {
        self.shape
    }

    fn narrow(s: Shape) -> (r: Result<Self, ()>) {
        match s.type_() {
            Option::Some(k) => {
                if k == ShapeType::Vertex {
                    Result::Ok(Vertex { shape: s })
                } else {
                    Result::Err(())
                }
            },
            Option::None => Result::Err(()),
        }
    }

    fn duplicate(&self) -> (t: Self) {
        Vertex { shape: self.shape.duplicate() }
    }

    fn as_shape(&self) -> (s: &Shape) {
        &self.shape
    }

    fn as_shape_mut(&mut self) -> (s: &mut Shape) {
        &mut self.shape
    }
}

/// A shape statically known to be of kind `Edge`: a bounded or unbounded piece of a curve
pub struct Edge {
    shape: Shape,
}

impl Edge {
    /// Retype a shape whose kind was already established.
    pub(crate) fn wrap(s: Shape) -> (t: Edge)
        ensures
            t.shape_view() == s@,
    {
        Edge { shape: s }
    }
}

impl IsShape for Edge {
    open spec fn kind() -> ShapeType {
        ShapeType::Edge
    }

    closed spec fn shape_view(self) -> Option<NodeModel> {
        self.shape@
    }

    fn shape_type() -> (k: ShapeType) {
        ShapeType::Edge
    }

    fn widen(self) -> (s: Shape) {
        self.shape
    }

    fn narrow(s: Shape) -> (r: Result<Self, ()>) {
        match s.type_() {
            Option::Some(k) => {
                if k == ShapeType::Edge {
                    Result::Ok(Edge { shape: s })
                } else {
                    Result::Err(())
                }
            },
            Option::None => Result::Err(()),
        }
    }

    fn duplicate(&self) -> (t: Self) {
        Edge { shape: self.shape.duplicate() }
    }

    fn as_shape(&self) -> (s: &Shape) {
        &self.shape
    }

    fn as_shape_mut(&mut self) -> (s: &mut Shape) {
        &mut self.shape
    }
}

/// A shape statically known to be of kind `Wire`: a chain of edges
pub struct Wire {
    shape: Shape,
}

impl Wire {
    /// Retype a shape whose kind was already established.
    pub(crate) fn wrap(s: Shape) -> (t: Wire)
        ensures
            t.shape_view() == s@,
    {
        Wire { shape: s }
    }
}

impl IsShape for Wire {
    open spec fn kind() -> ShapeType {
        ShapeType::Wire
    }

    closed spec fn shape_view(self) -> Option<NodeModel> {
        self.shape@
    }

    fn shape_type() -> (k: ShapeType) {
        ShapeType::Wire
    }

    fn widen(self) -> (s: Shape) {
        self.shape
    }

    fn narrow(s: Shape) -> (r: Result<Self, ()>) {
        match s.type_() {
            Option::Some(k) => {
                if k == ShapeType::Wire {
                    Result::Ok(Wire { shape: s })
                } else {
                    Result::Err(())
                }
            },
            Option::None => Result::Err(()),
        }
    }

    fn duplicate(&self) -> (t: Self) {
        Wire { shape: self.shape.duplicate() }
    }

    fn as_shape(&self) -> (s: &Shape) {
        &self.shape
    }

    fn as_shape_mut(&mut self) -> (s: &mut Shape) {
        &mut self.shape
    }
}

/// A shape statically known to be of kind `Face`: a piece of a surface bounded by wires
pub struct Face {
    shape: Shape,
}

impl Face {
    /// Retype a shape whose kind was already established.
    pub(crate) fn wrap(s: Shape) -> (t: Face)
        ensures
            t.shape_view() == s@,
    {
        Face { shape: s }
    }
}

impl IsShape for Face {
    open spec fn kind() -> ShapeType {
        ShapeType::Face
    }

    closed spec fn shape_view(self) -> Option<NodeModel> {
        self.shape@
    }

    fn shape_type() -> (k: ShapeType) {
        ShapeType::Face
    }

    fn widen(self) -> (s: Shape) {
        self.shape
    }

    fn narrow(s: Shape) -> (r: Result<Self, ()>) {
        match s.type_() {
            Option::Some(k) => {
                if k == ShapeType::Face {
                    Result::Ok(Face { shape: s })
                } else {
                    Result::Err(())
                }
            },
            Option::None => Result::Err(()),
        }
    }

    fn duplicate(&self) -> (t: Self) {
        Face { shape: self.shape.duplicate() }
    }

    fn as_shape(&self) -> (s: &Shape) {
        &self.shape
    }

    fn as_shape_mut(&mut self) -> (s: &mut Shape) {
        &mut self.shape
    }
}

/// A shape statically known to be of kind `Shell`: a set of faces joined along edges
pub struct Shell {
    shape: Shape,
}

impl Shell {
    /// Retype a shape whose kind was already established.
    pub(crate) fn wrap(s: Shape) -> (t: Shell)
        ensures
            t.shape_view() == s@,
    {
        Shell { shape: s }
    }
}

impl IsShape for Shell {
    open spec fn kind() -> ShapeType {
        ShapeType::Shell
    }

    closed spec fn shape_view(self) -> Option<NodeModel> {
        self.shape@
    }

    fn shape_type() -> (k: ShapeType) {
        ShapeType::Shell
    }

    fn widen(self) -> (s: Shape) {
        self.shape
    }

    fn narrow(s: Shape) -> (r: Result<Self, ()>) {
        match s.type_() {
            Option::Some(k) => {
                if k == ShapeType::Shell {
                    Result::Ok(Shell { shape: s })
                } else {
                    Result::Err(())
                }
            },
            Option::None => Result::Err(()),
        }
    }

    fn duplicate(&self) -> (t: Self) {
        Shell { shape: self.shape.duplicate() }
    }

    fn as_shape(&self) -> (s: &Shape) {
        &self.shape
    }

    fn as_shape_mut(&mut self) -> (s: &mut Shape) {
        &mut self.shape
    }
}

/// A shape statically known to be of kind `Solid`: a region of space bounded by shells
pub struct Solid {
    shape: Shape,
}

impl Solid {
    /// Retype a shape whose kind was already established.
    pub(crate) fn wrap(s: Shape) -> (t: Solid)
        ensures
            t.shape_view() == s@,
    {
        Solid { shape: s }
    }
}

impl IsShape for Solid {
    open spec fn kind() -> ShapeType {
        ShapeType::Solid
    }

    closed spec fn shape_view(self) -> Option<NodeModel> {
        self.shape@
    }

    fn shape_type() -> (k: ShapeType) {
        ShapeType::Solid
    }

    fn widen(self) -> (s: Shape) {
        self.shape
    }

    fn narrow(s: Shape) -> (r: Result<Self, ()>) {
        match s.type_() {
            Option::Some(k) => {
                if k == ShapeType::Solid {
                    Result::Ok(Solid { shape: s })
                } else {
                    Result::Err(())
                }
            },
            Option::None => Result::Err(()),
        }
    }

    fn duplicate(&self) -> (t: Self) {
        Solid { shape: self.shape.duplicate() }
    }

    fn as_shape(&self) -> (s: &Shape) {
        &self.shape
    }

    fn as_shape_mut(&mut self) -> (s: &mut Shape) {
        &mut self.shape
    }
}

/// A shape statically known to be of kind `Compsolid`: solids glued along faces
pub struct CompSolid {
    shape: Shape,
}

impl CompSolid {
    /// Retype a shape whose kind was already established.
    pub(crate) fn wrap(s: Shape) -> (t: CompSolid)
        ensures
            t.shape_view() == s@,
    {
        CompSolid { shape: s }
    }
}

impl IsShape for CompSolid {
    open spec fn kind() -> ShapeType {
        ShapeType::Compsolid
    }

    closed spec fn shape_view(self) -> Option<NodeModel> {
        self.shape@
    }

    fn shape_type() -> (k: ShapeType) {
        ShapeType::Compsolid
    }

    fn widen(self) -> (s: Shape) {
        self.shape
    }

    fn narrow(s: Shape) -> (r: Result<Self, ()>) {
        match s.type_() {
            Option::Some(k) => {
                if k == ShapeType::Compsolid {
                    Result::Ok(CompSolid { shape: s })
                } else {
                    Result::Err(())
                }
            },
            Option::None => Result::Err(()),
        }
    }

    fn duplicate(&self) -> (t: Self) {
        CompSolid { shape: self.shape.duplicate() }
    }

    fn as_shape(&self) -> (s: &Shape) {
        &self.shape
    }

    fn as_shape_mut(&mut self) -> (s: &mut Shape) {
        &mut self.shape
    }
}

/// A shape statically known to be of kind `Compound`: an arbitrary group of shapes
pub struct Compound {
    shape: Shape,
}

impl Compound {
    /// Retype a shape whose kind was already established.
    pub(crate) fn wrap(s: Shape) -> (t: Compound)
        ensures
            t.shape_view() == s@,
    {
        Compound { shape: s }
    }
}

impl IsShape for Compound {
    open spec fn kind() -> ShapeType {
        ShapeType::Compound
    }

    closed spec fn shape_view(self) -> Option<NodeModel> {
        self.shape@
    }

    fn shape_type() -> (k: ShapeType) {
        ShapeType::Compound
    }

    fn widen(self) -> (s: Shape) {
        self.shape
    }

    fn narrow(s: Shape) -> (r: Result<Self, ()>) {
        match s.type_() {
            Option::Some(k) => {
                if k == ShapeType::Compound {
                    Result::Ok(Compound { shape: s })
                } else {
                    Result::Err(())
                }
            },
            Option::None => Result::Err(()),
        }
    }

    fn duplicate(&self) -> (t: Self) {
        Compound { shape: self.shape.duplicate() }
    }

    fn as_shape(&self) -> (s: &Shape) {
        &self.shape
    }

    fn as_shape_mut(&mut self) -> (s: &mut Shape) {
        &mut self.shape
    }
}

} // verus!
