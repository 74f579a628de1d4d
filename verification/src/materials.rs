//! The five kinds of material, and what each decides when light is traced
//! back from a hit.
//!
//! The caller works out cosines, the Fresnel value and the samples. The
//! functions here decide which way the path goes on, which colour it is
//! tinted with, and where it ends.
use vstd::prelude::*;
use crate::scalar::{Scalar, ZERO_BITS, ONE_BITS};
use crate::geom::Vec3;
use crate::context::MAX_BLUR_BITS;

verus! {

/// The pattern of `0.00001`, the least cosine that an emitter's fall-off is
/// taken of.
pub const EMITTER_FLOOR_BITS: u32 = 0x3727_c5ac;

/// How a path goes on from a surface.
#[derive(Clone, Copy, Debug)]
pub enum Scatter {
    /// No light comes this way.
    Absorbed,
    /// The path goes on in a direction jittered about the normal.
    Diffuse { tint: Vec3 },
    /// The path goes on in the mirrored direction.
    Gloss { tint: Vec3 },
}

/// Whether a direction with this cosine to the normal leaves the surface.
pub open spec fn spec_leaves_surface(cosine: Scalar) -> bool {
    cosine.spec_gt(Scalar { bits: ZERO_BITS })
}

/// Whether a direction with this cosine to the normal leaves the surface.
pub fn leaves_surface(cosine: Scalar) -> (r: bool)
    ensures
        r == spec_leaves_surface(cosine),
{
    cosine.gt(Scalar::from_bits(ZERO_BITS))
}

/// A matt surface.
#[derive(Clone, Copy, Debug)]
pub struct Lambertian(pub Vec3);

impl Lambertian {
    /// The path always goes on diffusely, tinted with the albedo.
    pub open spec fn spec_scatter(self) -> Scatter {
        Scatter::Diffuse { tint: self.0 }
    }

    /// The share of jitter in the direction in which the path goes on.
    pub open spec fn spec_blur() -> Scalar {
        Scalar { bits: MAX_BLUR_BITS }
    }

    /// How the path goes on.
    pub fn scatter(&self) -> (r: Scatter)
        ensures
            r == self.spec_scatter(),
    {
        Scatter::Diffuse { tint: self.0 }
    }

    /// The share of jitter in the direction in which the path goes on.
    pub fn blur() -> (r: Scalar)
        ensures
            r == Lambertian::spec_blur(),
    {
        Scalar::from_bits(MAX_BLUR_BITS)
    }
}

/// A matt surface under a glossy coat that shows more at grazing angles.
#[derive(Clone, Copy, Debug)]
pub struct GlossWrap {
    pub gloss_color: Vec3,
    pub diffuse_color: Vec3,
    pub fresnel_power: Scalar,
    pub gloss_size: Scalar,
    pub max_gloss: Scalar,
    pub min_gloss: Scalar,
}

impl GlossWrap {
    /// The base of the Fresnel power: one plus the cosine between the
    /// incident direction and the normal, held between `0` and `1`.
    pub open spec fn spec_fresnel_base(one_plus_cosine: Scalar) -> Scalar {
        one_plus_cosine.spec_clamp(Scalar { bits: ZERO_BITS }, Scalar { bits: ONE_BITS })
    }

    /// How the path goes on: diffusely where the sample is at least the
    /// Fresnel value; else mirrored where the mirrored direction leaves the
    /// surface; else not at all.
    pub open spec fn spec_scatter(self, sample: Scalar, fresnel: Scalar, gloss_cosine: Scalar)
        -> Scatter {
        if sample.spec_ge(fresnel) {
            Scatter::Diffuse { tint: self.diffuse_color }
        } else if spec_leaves_surface(gloss_cosine) {
            Scatter::Gloss { tint: self.gloss_color }
        } else {
            Scatter::Absorbed
        }
    }

    /// The base of the Fresnel power, from one plus the cosine between the
    /// incident direction and the normal.
    pub fn fresnel_base(one_plus_cosine: Scalar) -> (r: Scalar)
        ensures
            r == GlossWrap::spec_fresnel_base(one_plus_cosine),
            !one_plus_cosine.is_nan() ==> 0 <= r.rank() <= ONE_BITS,
    {
        one_plus_cosine.clamp(Scalar::from_bits(ZERO_BITS), Scalar::from_bits(ONE_BITS))
    }

    /// Decides how the path goes on. `sample` is a one-dimensional draw,
    /// `fresnel` the Fresnel value of the hit, and `gloss_cosine` the cosine
    /// between the mirrored direction and the normal of the surface.
    pub fn scatter(&self, sample: Scalar, fresnel: Scalar, gloss_cosine: Scalar) -> (r: Scatter)
        ensures
            r == self.spec_scatter(sample, fresnel, gloss_cosine),
    {
        if sample.ge(fresnel) {
            Scatter::Diffuse { tint: self.diffuse_color }
        } else if leaves_surface(gloss_cosine) {
            Scatter::Gloss { tint: self.gloss_color }
        } else {
            Scatter::Absorbed
        }
    }
}

/// Two materials in a pattern of cubes. `a` and `b` are the numbers of the
/// two materials in the scene.
#[derive(Clone, Copy, Debug)]
pub struct Checkerboard {
    pub size: Scalar,
    pub a: usize,
    pub b: usize,
}

impl Checkerboard {
    /// The material of a cell: `a` where the sum of the cell's three
    /// coordinates is even, `b` where it is odd.
    pub open spec fn spec_select(self, cx: int, cy: int, cz: int) -> usize {
        if (cx + cy + cz) % 2 == 0 {
            self.a
        } else {
            self.b
        }
    }

    /// The material of the cell with the given coordinates: the local
    /// position of a hit, divided by `size` and rounded down.
    pub fn select(&self, cx: i32, cy: i32, cz: i32) -> (r: usize)
        ensures
            r == self.spec_select(cx as int, cy as int, cz as int),
            r == self.a || r == self.b,
    {
        proof {
            lemma_parity_of_three(cx, cy, cz);
        }
        if (cx ^ cy ^ cz) & 1 == 0 {
            self.a
        } else {
            self.b
        }
    }
}

proof fn lemma_low_bit(v: i32)
    ensures
        v & 1 == 0 || v & 1 == 1,
        (v & 1 == 0) <==> (v as int) % 2 == 0,
{
    assert(v & 1 == 0 || v & 1 == 1) by (bit_vector);
    assert((v & 1 == 0) <==> v % 2 == 0) by (bit_vector);
}

proof fn lemma_low_bit_of_xor(a: i32, b: i32)
    ensures
        ((a ^ b) & 1 == 0) <==> ((a & 1 == 0) <==> (b & 1 == 0)),
{
    assert(((a ^ b) & 1 == 0) <==> ((a & 1 == 0) <==> (b & 1 == 0))) by (bit_vector);
}

proof fn lemma_parity_of_three(cx: i32, cy: i32, cz: i32)
    ensures
        ((cx ^ cy ^ cz) & 1 == 0) <==> (cx + cy + cz) % 2 == 0,
{
    lemma_low_bit(cx);
    lemma_low_bit(cy);
    lemma_low_bit(cz);
    lemma_low_bit_of_xor(cx, cy);
    lemma_low_bit_of_xor(cx ^ cy, cz);
}

/// Metal with fine grooves in rings about the centre of each cell.
#[derive(Clone, Copy, Debug)]
pub struct BrushedMetal {
    pub size: Scalar,
    pub radial_roughness: Scalar,
    pub circumference_roughness: Scalar,
    pub color: Vec3,
}

impl BrushedMetal {
    /// How the path goes on: mirrored where the mirrored direction leaves
    /// the surface, else not at all.
    pub open spec fn spec_scatter(self, reflected_cosine: Scalar) -> Scatter {
        if spec_leaves_surface(reflected_cosine) {
            Scatter::Gloss { tint: self.color }
        } else {
            Scatter::Absorbed
        }
    }

    /// Decides how the path goes on. `reflected_cosine` is the cosine
    /// between the mirrored direction and the normal of the surface.
    pub fn scatter(&self, reflected_cosine: Scalar) -> (r: Scatter)
        ensures
            r == self.spec_scatter(reflected_cosine),
    {
        if leaves_surface(reflected_cosine) {
            Scatter::Gloss { tint: self.color }
        } else {
            Scatter::Absorbed
        }
    }
}

/// A light.
#[derive(Clone, Copy, Debug)]
pub struct Emitter {
    pub color: Vec3,
    pub focus: Scalar,
}

impl Emitter {
    /// The base of the fall-off: the cosine between the normal and the
    /// direction back along the incident ray, held between `0.00001` and `1`.
    pub open spec fn spec_falloff_base(incident_cosine: Scalar) -> Scalar {
        incident_cosine.spec_neg().spec_clamp(
            Scalar { bits: EMITTER_FLOOR_BITS },
            Scalar { bits: ONE_BITS },
        )
    }

    /// The base of the fall-off, from the cosine between the incident
    /// direction and the normal. The light that leaves is the colour times
    /// this base to the power of `focus`.
    pub fn falloff_base(incident_cosine: Scalar) -> (r: Scalar)
        ensures
            r == Emitter::spec_falloff_base(incident_cosine),
            !incident_cosine.is_nan() ==> EMITTER_FLOOR_BITS <= r.rank() <= ONE_BITS,
            incident_cosine.bits == crate::scalar::MINUS_ONE_BITS ==> r.bits == ONE_BITS,
    {
        incident_cosine.neg().clamp(
            Scalar::from_bits(EMITTER_FLOOR_BITS),
            Scalar::from_bits(ONE_BITS),
        )
    }
}

/// The appearance of a surface.
#[derive(Clone, Copy, Debug)]
pub enum Material {
    Lambertian(Lambertian),
    GlossWrap(GlossWrap),
    Checkerboard(Checkerboard),
    BrushedMetal(BrushedMetal),
    Emitter(Emitter),
}

} // verus!
