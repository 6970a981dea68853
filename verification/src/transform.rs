//! The affine placement attached to a shape: a classification, a scale
//! factor, a translation component and a rotation component.
//!
//! The kernel-side placement slot is modelled as a plain record. The
//! high-level setters (`set_mirror`, `set_scale`, `set_translation`) fill
//! every component consistently; the low-level setters replace one component
//! and leave the rest untouched, as the kernel's do.

use vstd::prelude::*;

use crate::math::{Point, Quaternion, Vector};

verus! {

/// The classification of a geometric transformation.
#[derive(Clone, Copy, Debug, PartialEq, Eq, Structural)]
pub enum TransformationForm {
    /// No transformation (the matrix is the identity).
    Identity,
    /// Rotation.
    Rotation,
    /// Translation.
    Translation,
    /// Central symmetry.
    PntMirror,
    /// Rotational symmetry.
    Ax1Mirror,
    /// Bilateral symmetry.
    Ax2Mirror,
    /// Scale.
    Scale,
    /// Combination of the above transformations.
    CompoundTrsf,
    /// Transformation with a non-orthogonal matrix.
    Other,
}

/// An affine placement: form, scale factor, translation and rotation.
#[derive(Clone, Copy, Debug, PartialEq, Eq, Structural)]
pub struct Transformation {
    pub form: TransformationForm,
    pub scale: i32,
    pub translation: Vector,
    pub rotation: Quaternion,
}

proof fn lemma_scale_product_fits(a: i64, b: i64)
    requires
        -0x8001 <= a <= 0x8001,
        -0x8000 <= b <= 0x8000,
    ensures
        -0x4000_8000 <= a * b <= 0x4000_8000,
{
    assert(-0x4000_8000 <= a * b <= 0x4000_8000) by (nonlinear_arith)
        requires
            -0x8001 <= a <= 0x8001,
            -0x8000 <= b <= 0x8000,
    ;
}

impl Default for Transformation {
    /// The identity placement.
    fn default() -> (t: Transformation)
        ensures
            t == Transformation::identity(),
    {
        Transformation {
            form: TransformationForm::Identity,
            scale: 1,
            translation: Vector { x: 0, y: 0, z: 0 },
            rotation: Quaternion { x: 0, y: 0, z: 0, w: 1 },
        }
    }
}

impl Transformation {
    /// The identity placement: scale 1, no translation, no rotation.
    pub open spec fn identity() -> Transformation {
        Transformation {
            form: TransformationForm::Identity,
            scale: 1,
            translation: Vector { x: 0, y: 0, z: 0 },
            rotation: Quaternion { x: 0, y: 0, z: 0, w: 1 },
        }
    }

    pub fn scale_factor(&self) -> (s: i32)
        ensures
            s == self.scale,
    {
        self.scale
    }

    pub fn set_scale_factor(&mut self, s: i32)
        ensures
            *final(self) == (Transformation { scale: s, ..*old(self) }),
    {
        self.scale = s;
    }

    pub fn form(&self) -> (f: TransformationForm)
        ensures
            f == self.form,
    {
        self.form
    }

    pub fn set_form(&mut self, form: TransformationForm)
        ensures
            *final(self) == (Transformation { form, ..*old(self) }),
    {
        self.form = form;
    }

    /// The translation component.
    pub fn translation_part(&self) -> (v: &Vector)
        ensures
            *v == self.translation,
    {
        &self.translation
    }

    /// Replace the translation component, leaving the rest untouched.
    pub fn set_translation_part(&mut self, v: &Vector)
        ensures
            *final(self) == (Transformation { translation: *v, ..*old(self) }),
    {
        self.translation = *v;
    }

    /// The rotation component.
    pub fn rotation_part(&self) -> (q: Quaternion)
        ensures
            q == self.rotation,
    {
        self.rotation
    }

    /// Replace the rotation component, leaving the rest untouched.
    pub fn set_rotation_part(&mut self, r: &Quaternion)
        ensures
            *final(self) == (Transformation { rotation: *r, ..*old(self) }),
    {
        self.rotation = *r;
    }

    /// Make this the central symmetry about `p`: the map `x -> 2p - x`,
    /// that is scale `-1` with translation `2p`.
    pub fn set_mirror(&mut self, p: &Point)
        requires
            -0x4000_0000 <= p.x < 0x4000_0000,
            -0x4000_0000 <= p.y < 0x4000_0000,
            -0x4000_0000 <= p.z < 0x4000_0000,
        ensures
            *final(self) == (Transformation {
                form: TransformationForm::PntMirror,
                scale: -1i32,
                translation: Vector { x: (2 * p.x) as i32, y: (2 * p.y) as i32, z: (2 * p.z) as i32 },
                rotation: Quaternion { x: 0, y: 0, z: 0, w: 1 },
            }),
    {
        self.form = TransformationForm::PntMirror;
        self.scale = -1;
        self.translation = Vector { x: 2 * p.x, y: 2 * p.y, z: 2 * p.z };
        self.rotation = Quaternion { x: 0, y: 0, z: 0, w: 1 };
    }

    /// Make this the scaling by `s` centred on `p`: the map
    /// `x -> p + s (x - p)`, that is scale `s` with translation `(1 - s) p`.
    pub fn set_scale(&mut self, p: &Point, s: i32)
        requires
            -0x8000 <= s < 0x8000,
            -0x8000 <= p.x < 0x8000,
            -0x8000 <= p.y < 0x8000,
            -0x8000 <= p.z < 0x8000,
        ensures
            *final(self) == (Transformation {
                form: TransformationForm::Scale,
                scale: s,
                translation: Vector {
                    x: ((1 - s) * p.x) as i32,
                    y: ((1 - s) * p.y) as i32,
                    z: ((1 - s) * p.z) as i32,
                },
                rotation: Quaternion { x: 0, y: 0, z: 0, w: 1 },
            }),
    {
        let f: i64 = 1 - (s as i64);
        proof {
            lemma_scale_product_fits(f, p.x as i64);
            lemma_scale_product_fits(f, p.y as i64);
            lemma_scale_product_fits(f, p.z as i64);
        }
        self.form = TransformationForm::Scale;
        self.scale = s;
        self.translation = Vector {
            x: (f * (p.x as i64)) as i32,
            y: (f * (p.y as i64)) as i32,
            z: (f * (p.z as i64)) as i32,
        };
        self.rotation = Quaternion { x: 0, y: 0, z: 0, w: 1 };
    }

    /// Make this the translation by `v`.
    pub fn set_translation(&mut self, v: &Vector)
        ensures
            *final(self) == (Transformation {
                form: TransformationForm::Translation,
                scale: 1,
                translation: *v,
                rotation: Quaternion { x: 0, y: 0, z: 0, w: 1 },
            }),
    {
        self.form = TransformationForm::Translation;
        self.scale = 1;
        self.translation = *v;
        self.rotation = Quaternion { x: 0, y: 0, z: 0, w: 1 };
    }
}

} // verus!
