//! The scene: its shapes, its materials, and the choice of the hit that a
//! ray sees.
use vstd::prelude::*;
use crate::scalar::{Scalar, ZERO_BITS};
use crate::geom::Hit;
use crate::shapes::Shape;
use crate::materials::Material;

verus! {

/// The pattern of `0.0001`. A hit that is not farther than this along the
/// ray is taken for the surface that the ray starts from.
pub const MIN_HIT_DISTANCE_BITS: u32 = 0x38d1_b717;

/// Whether the outcome of testing one shape is a hit that the ray may see:
/// the ray began outside the shape and the hit is far enough along it.
pub open spec fn counts(outcome: Option<Hit>) -> bool {
    match outcome {
        Some(hit) => !hit.started_inside && hit.distance.spec_gt(
            Scalar { bits: MIN_HIT_DISTANCE_BITS },
        ),
        None => false,
    }
}

/// Whether outcome `i` is the hit that the ray sees among the first `n`
/// outcomes: it counts, none that counts is nearer, and none before it is
/// as near.
pub open spec fn is_nearest(outcomes: Seq<Option<Hit>>, n: int, i: int) -> bool {
    &&& 0 <= i < n <= outcomes.len()
    &&& counts(outcomes[i])
    &&& forall|j: int|
        0 <= j < n && counts(#[trigger] outcomes[j]) ==> outcomes[i].unwrap().distance.rank()
            <= outcomes[j].unwrap().distance.rank()
    &&& forall|j: int|
        0 <= j < i && counts(#[trigger] outcomes[j]) ==> outcomes[i].unwrap().distance.rank()
            < outcomes[j].unwrap().distance.rank()
}

/// Whether none of the first `n` outcomes counts.
pub open spec fn none_counts(outcomes: Seq<Option<Hit>>, n: int) -> bool {
    forall|j: int| 0 <= j < n ==> !counts(#[trigger] outcomes[j])
}

/// The hit that a ray sees, given the outcome of testing each shape in
/// turn: the nearest of those that count, and of several at one distance
/// the first. `None` where the ray sees the background.
pub fn nearest_hit(outcomes: &Vec<Option<Hit>>) -> (r: Option<usize>)
    ensures
        match r {
            Some(i) => is_nearest(outcomes@, outcomes.len() as int, i as int),
            None => none_counts(outcomes@, outcomes.len() as int),
        },
{
    let threshold = Scalar::from_bits(MIN_HIT_DISTANCE_BITS);
    let mut best: Option<(usize, Scalar)> = None;
    let mut i: usize = 0;
    while i < outcomes.len()
        invariant
            i <= outcomes.len(),
            threshold.bits == MIN_HIT_DISTANCE_BITS,
            match best {
                Some((b, distance)) => is_nearest(outcomes@, i as int, b as int) && distance
                    == outcomes@[b as int].unwrap().distance,
                None => none_counts(outcomes@, i as int),
            },
        decreases outcomes.len() - i,
    {
        if let Some(hit) = outcomes[i] {
            if !hit.started_inside && hit.distance.gt(threshold) {
                let nearer = match best {
                    Some((_, distance)) => hit.distance.lt(distance),
                    None => true,
                };
                if nearer {
                    best = Some((i, hit.distance));
                }
            }
        }
        i += 1;
    }
    match best {
        Some((b, _)) => Some(b),
        None => None,
    }
}

/// The share of the sun's highlight in the background: the cosine between
/// the ray and the direction of the sun where the ray looks towards the
/// sun, and zero where it looks away. The background's light is an ambient
/// term plus a multiple of the tenth power of this share.
pub fn highlight_base(cosine: Scalar) -> (r: Scalar)
    ensures
        r == cosine.spec_max(Scalar { bits: ZERO_BITS }),
        !r.is_nan(),
        r.rank() >= 0,
{
    cosine.max(Scalar::from_bits(ZERO_BITS))
}

/// The shapes of a scene and the materials that they show. A shape, and a
/// checkerboard, names a material by its number in the scene.
pub struct Scene {
    shapes: Vec<Shape>,
    materials: Vec<Material>,
}

impl Scene {
    /// The shapes, in the order in which a ray is tested against them.
    pub closed spec fn shapes(&self) -> Seq<Shape> {
        self.shapes@
    }

    /// The materials, by number.
    pub closed spec fn materials(&self) -> Seq<Material> {
        self.materials@
    }

    /// Whether a material may take the number `index`: a checkerboard
    /// names two materials with lower numbers.
    pub open spec fn admits(material: Material, index: int) -> bool {
        match material {
            Material::Checkerboard(board) => board.a < index && board.b < index,
            _ => true,
        }
    }

    /// Every shape names a material of the scene, and every checkerboard
    /// names two materials with lower numbers than its own. So no material
    /// is reached from itself.
    pub open spec fn wf(&self) -> bool {
        &&& forall|i: int|
            0 <= i < self.shapes().len() ==> (#[trigger] self.shapes()[i]).spec_material()
                < self.materials().len()
        &&& forall|i: int|
            0 <= i < self.materials().len() ==> Scene::admits(#[trigger] self.materials()[i], i)
    }

    /// A scene without shapes or materials.
    pub fn new() -> (r: Scene)
        ensures
            r.wf(),
            r.shapes() == Seq::<Shape>::empty(),
            r.materials() == Seq::<Material>::empty(),
    {
        Scene { shapes: Vec::new(), materials: Vec::new() }
    }

    /// Adds a material and returns its number. A checkerboard that names a
    /// material which the scene does not hold yet is not added.
    pub fn add_material(&mut self, material: Material) -> (r: Option<usize>)
        requires
            old(self).wf(),
        ensures
            final(self).wf(),
            final(self).shapes() == old(self).shapes(),
            r is Some <==> Scene::admits(material, old(self).materials().len() as int),
            r is Some ==> r == Some(old(self).materials().len() as usize),
            r is Some ==> final(self).materials() == old(self).materials().push(material),
            r is None ==> final(self).materials() == old(self).materials(),
    {
        let index = self.materials.len();
        let admitted = match material {
            Material::Checkerboard(board) => board.a < index && board.b < index,
            _ => true,
        };
        if admitted {
            self.materials.push(material);
            proof {
                assert forall|i: int| 0 <= i < self.materials().len() implies Scene::admits(
                    #[trigger] self.materials()[i],
                    i,
                ) by {
                    if i < index {
                        assert(self.materials()[i] == old(self).materials()[i]);
                    }
                }
                assert forall|i: int| 0 <= i < self.shapes().len() implies (
                #[trigger] self.shapes()[i]).spec_material() < self.materials().len() by {
                    assert(self.shapes()[i] == old(self).shapes()[i]);
                }
            }
            Some(index)
        } else {
            None
        }
    }

    /// Adds a shape behind the others and returns its place. A shape that
    /// names a material which the scene does not hold is not added.
    pub fn add_shape(&mut self, shape: Shape) -> (r: Option<usize>)
        requires
            old(self).wf(),
        ensures
            final(self).wf(),
            final(self).materials() == old(self).materials(),
            r is Some <==> shape.spec_material() < old(self).materials().len(),
            r is Some ==> r == Some(old(self).shapes().len() as usize),
            r is Some ==> final(self).shapes() == old(self).shapes().push(shape),
            r is None ==> final(self).shapes() == old(self).shapes(),
    {
        let index = self.shapes.len();
        if shape.material() < self.materials.len() {
            self.shapes.push(shape);
            proof {
                assert forall|i: int| 0 <= i < self.shapes().len() implies (
                #[trigger] self.shapes()[i]).spec_material() < self.materials().len() by {
                    if i < index {
                        assert(self.shapes()[i] == old(self).shapes()[i]);
                    }
                }
            }
            Some(index)
        } else {
            None
        }
    }

    /// The number of shapes.
    pub fn shape_count(&self) -> (r: usize)
        ensures
            r == self.shapes().len(),
    {
        self.shapes.len()
    }

    /// The number of materials.
    pub fn material_count(&self) -> (r: usize)
        ensures
            r == self.materials().len(),
    {
        self.materials.len()
    }

    /// The shape at place `index`.
    pub fn shape(&self, index: usize) -> (r: Shape)
        requires
            index < self.shapes().len(),
        ensures
            r == self.shapes()[index as int],
    {
        self.shapes[index]
    }

    /// The material with the number `index`.
    pub fn material(&self, index: usize) -> (r: Material)
        requires
            index < self.materials().len(),
        ensures
            r == self.materials()[index as int],
    {
        self.materials[index]
    }
}

} // verus!
