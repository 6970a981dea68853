//! Plain value types for the geometric inputs of the construction operators:
//! points, vectors, quaternions, axes and angles.
//!
//! Coordinates are integers so that every geometric predicate the layer
//! decides (coincidence, connectivity, coplanarity) is exact.

use vstd::prelude::*;

verus! {

/// A point in 3D space.
#[derive(Clone, Copy, Debug, PartialEq, Eq, Structural)]
pub struct Point {
    pub x: i32,
    pub y: i32,
    pub z: i32,
}

impl Point {
    pub fn new(x: i32, y: i32, z: i32) -> (p: Point)
        ensures
            p == (Point { x, y, z }),
    {
        Point { x, y, z }
    }
}

impl Default for Point {
    fn default() -> (p: Point)
        ensures
            p == (Point { x: 0, y: 0, z: 0 }),
    {
        Point { x: 0, y: 0, z: 0 }
    }
}

/// A displacement in 3D space.
#[derive(Clone, Copy, Debug, PartialEq, Eq, Structural)]
pub struct Vector {
    pub x: i32,
    pub y: i32,
    pub z: i32,
}

impl Vector {
    pub fn new(x: i32, y: i32, z: i32) -> (v: Vector)
        ensures
            v == (Vector { x, y, z }),
    {
        Vector { x, y, z }
    }

    /// Whether this is the zero displacement.
    pub open spec fn is_zero(self) -> bool {
        self.x == 0 && self.y == 0 && self.z == 0
    }
}

impl Default for Vector {
    fn default() -> (v: Vector)
        ensures
            v == (Vector { x: 0, y: 0, z: 0 }),
    {
        Vector { x: 0, y: 0, z: 0 }
    }
}

/// A rotation, stored as quaternion components.
#[derive(Clone, Copy, Debug, PartialEq, Eq, Structural)]
pub struct Quaternion {
    pub x: i32,
    pub y: i32,
    pub z: i32,
    pub w: i32,
}

impl Quaternion {
    pub fn new(x: i32, y: i32, z: i32, w: i32) -> (q: Quaternion)
        ensures
            q == (Quaternion { x, y, z, w }),
    {
        Quaternion { x, y, z, w }
    }
}

impl Default for Quaternion {
    fn default() -> (q: Quaternion)
        ensures
            q == (Quaternion { x: 0, y: 0, z: 0, w: 1 }),
    {
        Quaternion { x: 0, y: 0, z: 0, w: 1 }
    }
}

/// An axis: a point together with a direction.
#[derive(Clone, Copy, Debug, PartialEq, Eq, Structural)]
pub struct Axis1 {
    pub point: Point,
    pub dir: Vector,
}

impl Axis1 {
    pub fn new(point: Point, dir: Vector) -> (a: Axis1)
        ensures
            a == (Axis1 { point, dir }),
    {
        Axis1 { point, dir }
    }
}

impl Default for Axis1 {
    fn default() -> (a: Axis1)
        ensures
            a.point == (Point { x: 0, y: 0, z: 0 }),
            a.dir == (Vector { x: 0, y: 0, z: 0 }),
    {
        Axis1 { point: Point { x: 0, y: 0, z: 0 }, dir: Vector { x: 0, y: 0, z: 0 } }
    }
}

impl From<(Point, Vector)> for Axis1 {
    fn from(t: (Point, Vector)) -> (a: Axis1) {
        Axis1 { point: t.0, dir: t.1 }
    }
}

impl vstd::std_specs::convert::FromSpecImpl<(Point, Vector)> for Axis1 {
    open spec fn obeys_from_spec() -> bool {
        true
    }

    open spec fn from_spec(t: (Point, Vector)) -> Axis1 {
        Axis1 { point: t.0, dir: t.1 }
    }
}

/// A placed coordinate system: a main axis with explicit x and y directions.
#[derive(Clone, Copy, Debug, PartialEq, Eq, Structural)]
pub struct Axis3 {
    pub axis: Axis1,
    pub ydir: Vector,
    pub xdir: Vector,
}

impl Axis3 {
    pub fn new(axis: Axis1, ydir: Vector, xdir: Vector) -> (a: Axis3)
        ensures
            a == (Axis3 { axis, ydir, xdir }),
    {
        Axis3 { axis, ydir, xdir }
    }
}

impl From<(Axis1, Vector, Vector)> for Axis3 {
    fn from(t: (Axis1, Vector, Vector)) -> (a: Axis3) {
        Axis3 { axis: t.0, ydir: t.1, xdir: t.2 }
    }
}

impl vstd::std_specs::convert::FromSpecImpl<(Axis1, Vector, Vector)> for Axis3 {
    open spec fn obeys_from_spec() -> bool {
        true
    }

    open spec fn from_spec(t: (Axis1, Vector, Vector)) -> Axis3 {
        Axis3 { axis: t.0, ydir: t.1, xdir: t.2 }
    }
}

/// Angle units.
#[derive(Clone, Copy, Debug, PartialEq, Eq, Structural)]
pub enum AngleUnits {
    /// Degrees
    Deg,
    /// Radians
    Rad,
}

/// An angle value together with its units.
///
/// The value is not converted between units by this layer; an angle is
/// carried to the sweep operators as given.
#[derive(Clone, Copy, Debug, PartialEq, Eq, Structural)]
pub struct Angle {
    value: i64,
    units: AngleUnits,
}

impl Angle {
    pub fn new(value: i64, units: AngleUnits) -> (a: Angle)
        ensures
            a.value_spec() == value,
            a.units_spec() == units,
    {
        Angle { value, units }
    }

    pub closed spec fn value_spec(self) -> i64 {
        self.value
    }

    pub closed spec fn units_spec(self) -> AngleUnits {
        self.units
    }

    /// The raw numeric value, in this angle's own units.
    pub fn raw(&self) -> (v: &i64)
        ensures
            *v == self.value_spec(),
    {
        &self.value
    }

    /// The units the value is expressed in.
    pub fn units(&self) -> (u: AngleUnits)
        ensures
            u == self.units_spec(),
    {
        self.units
    }
}

} // verus!
