//! The three kinds of surface, and what is decided when a ray is tested
//! against one.
//!
//! The caller works out the numbers of an intersection: projections, roots,
//! quotients. The functions here take those numbers and decide whether the
//! ray hits, whether it began inside, which root or face counts, and which
//! way the normal points; then they put the hit together.
use vstd::prelude::*;
use crate::scalar::{Scalar, ZERO_BITS};
use crate::geom::{
    Vec3, Mat3, Affine3, Hit, unit_x, unit_y, unit_z, neg_unit_x, neg_unit_y, neg_unit_z,
};
use crate::scalar::{ONE_BITS, MINUS_ONE_BITS, INFINITY_BITS};

verus! {

/// The pattern of `0.000001`. A plane is not hit by a ray whose direction,
/// or whose origin, has a smaller product with the normal.
pub const PARALLEL_EPSILON_BITS: u32 = 0x3586_37bd;

/// The pattern of negative infinity.
pub const NEG_INFINITY_BITS: u32 = 0xff80_0000;

/// The outcome of a ray that hits: where along the ray, and whether the ray
/// began inside the shape.
#[derive(Clone, Copy, Debug)]
pub struct Crossing {
    pub distance: Scalar,
    pub started_inside: bool,
}

/// A ball.
#[derive(Clone, Copy, Debug)]
pub struct Sphere {
    pub center: Vec3,
    pub radius: Scalar,
    /// The number of the material in the scene.
    pub material: usize,
}

impl Sphere {
    /// The roots of a ray's line on the sphere: `near` and `far` where the
    /// line passes the centre closer than the radius, none otherwise.
    pub open spec fn spec_intersect(
        perp_len_squared: Scalar,
        radius_squared: Scalar,
        near: Scalar,
        far: Scalar,
    ) -> Option<(Scalar, Scalar)> {
        if perp_len_squared.spec_lt(radius_squared) {
            Some((near, far))
        } else {
            None
        }
    }

    /// The crossing that a pair of roots stands for: none where the far root
    /// is not positive; else the ray began inside exactly where the near
    /// root is negative, and then the far root counts, otherwise the near.
    pub open spec fn spec_crossing(roots: Option<(Scalar, Scalar)>) -> Option<Crossing> {
        match roots {
            Some((near, far)) => {
                if far.spec_gt(Scalar { bits: ZERO_BITS }) {
                    let started_inside = near.spec_lt(Scalar { bits: ZERO_BITS });
                    Some(
                        Crossing {
                            distance: if started_inside {
                                far
                            } else {
                                near
                            },
                            started_inside,
                        },
                    )
                } else {
                    None
                }
            },
            None => None,
        }
    }

    /// The hit at a crossing.
    pub open spec fn spec_hit(
        self,
        crossing: Crossing,
        world_pos: Vec3,
        local_pos: Vec3,
        normal: Vec3,
    ) -> Hit {
        Hit {
            world_pos,
            world_normal: normal,
            local_pos,
            local_normal: normal,
            material: self.material,
            distance: crossing.distance,
            started_inside: crossing.started_inside,
            local_to_world: Mat3::spec_identity(),
        }
    }

    /// Decides whether the line of a ray crosses the sphere.
    /// `perp_len_squared` is the squared distance of the centre from the
    /// line, `radius_squared` the squared radius, and `near` and `far` are
    /// the distance along the ray to the foot of the centre, less and plus
    /// half the chord.
    pub fn intersect(
        perp_len_squared: Scalar,
        radius_squared: Scalar,
        near: Scalar,
        far: Scalar,
    ) -> (r: Option<(Scalar, Scalar)>)
        ensures
            r == Sphere::spec_intersect(perp_len_squared, radius_squared, near, far),
    {
        if perp_len_squared.lt(radius_squared) {
            Some((near, far))
        } else {
            None
        }
    }

    /// Decides whether a ray with these roots hits the sphere, and where.
    pub fn crossing(roots: Option<(Scalar, Scalar)>) -> (r: Option<Crossing>)
        ensures
            r == Sphere::spec_crossing(roots),
            r is Some <==> (roots matches Some(pair) && pair.1.spec_gt(Scalar { bits: ZERO_BITS })),
    {
        match roots {
            Some((near, far)) => {
                if far.gt(Scalar::from_bits(ZERO_BITS)) {
                    let started_inside = near.lt(Scalar::from_bits(ZERO_BITS));
                    let distance = if started_inside {
                        far
                    } else {
                        near
                    };
                    Some(Crossing { distance, started_inside })
                } else {
                    None
                }
            },
            None => None,
        }
    }

    /// Puts together the hit at `crossing`. `world_pos` is the point on the
    /// ray at the crossing's distance, `local_pos` the same point seen from
    /// the centre, and `normal` its direction from the centre. The sphere
    /// has no directions of its own: the local frame is the world's.
    pub fn hit(&self, crossing: Crossing, world_pos: Vec3, local_pos: Vec3, normal: Vec3) -> (r:
        Hit)
        ensures
            r == self.spec_hit(crossing, world_pos, local_pos, normal),
    {
        Hit {
            world_pos,
            world_normal: normal,
            local_pos,
            local_normal: normal,
            material: self.material,
            distance: crossing.distance,
            started_inside: crossing.started_inside,
            local_to_world: Mat3::identity(),
        }
    }
}

/// An unbounded plane with two directions in it, by which points on it are
/// told apart.
#[derive(Clone, Copy, Debug)]
pub struct Plane {
    /// The direction at right angles to the plane, of length one.
    pub normal: Vec3,
    /// A point of the plane.
    pub center: Vec3,
    /// The number of the material in the scene.
    pub material: usize,
    /// The product of `normal` and `center`.
    pub n_dot_c: Scalar,
    /// The first direction in the plane, of length one.
    pub right: Vec3,
    /// The second direction in the plane, of length one.
    pub up: Vec3,
}

impl Plane {
    /// Whether a product with the normal is too small to divide by or to
    /// take a side from.
    pub open spec fn negligible(product: Scalar) -> bool {
        !product.spec_abs().spec_gt(Scalar { bits: PARALLEL_EPSILON_BITS })
    }

    /// The crossing of a ray with the plane: none where the direction or the
    /// origin has a negligible product with the normal, or where the
    /// distance is not positive. A plane has no inside.
    pub open spec fn spec_crossing(n_dot_dir: Scalar, n_dot_o: Scalar, distance: Scalar) -> Option<
        Crossing,
    > {
        if !Plane::negligible(n_dot_dir) && !Plane::negligible(n_dot_o) && distance.spec_gt(
            Scalar { bits: ZERO_BITS },
        ) {
            Some(Crossing { distance, started_inside: false })
        } else {
            None
        }
    }

    /// Whether a ray comes from the side that the normal points to: it does
    /// where it runs against the normal.
    pub open spec fn spec_faces_origin(n_dot_dir: Scalar) -> bool {
        n_dot_dir.spec_lt(Scalar { bits: ZERO_BITS })
    }

    /// The hit at a crossing.
    pub open spec fn spec_hit(
        self,
        crossing: Crossing,
        n_dot_dir: Scalar,
        world_pos: Vec3,
        local_x: Scalar,
        local_y: Scalar,
    ) -> Hit {
        let front = Plane::spec_faces_origin(n_dot_dir);
        Hit {
            world_pos,
            world_normal: if front {
                self.normal
            } else {
                self.normal.spec_neg()
            },
            local_pos: Vec3 { x: local_x, y: local_y, z: Scalar { bits: ZERO_BITS } },
            local_normal: if front {
                unit_z()
            } else {
                neg_unit_z()
            },
            material: self.material,
            distance: crossing.distance,
            started_inside: crossing.started_inside,
            local_to_world: Mat3 { x_axis: self.right, y_axis: self.up, z_axis: self.normal },
        }
    }

    /// Decides whether a ray hits the plane. `n_dot_dir` and `n_dot_o` are
    /// the products of the normal with the ray's direction and origin, and
    /// `distance` is the quotient of `n_dot_c - n_dot_o` by `n_dot_dir`.
    pub fn crossing(n_dot_dir: Scalar, n_dot_o: Scalar, distance: Scalar) -> (r: Option<Crossing>)
        ensures
            r == Plane::spec_crossing(n_dot_dir, n_dot_o, distance),
            n_dot_dir.is_zero() ==> r is None,
    {
        let epsilon = Scalar::from_bits(PARALLEL_EPSILON_BITS);
        if n_dot_dir.abs().gt(epsilon) && n_dot_o.abs().gt(epsilon) && distance.gt(
            Scalar::from_bits(ZERO_BITS),
        ) {
            Some(Crossing { distance, started_inside: false })
        } else {
            None
        }
    }

    /// Puts together the hit at `crossing`. `world_pos` is the point on the
    /// ray at the crossing's distance; `local_x` and `local_y` are the
    /// products of `right` and `up` with the point seen from `center`. The
    /// normal of the hit faces the side that the ray comes from.
    pub fn hit(
        &self,
        crossing: Crossing,
        n_dot_dir: Scalar,
        world_pos: Vec3,
        local_x: Scalar,
        local_y: Scalar,
    ) -> (r: Hit)
        ensures
            r == self.spec_hit(crossing, n_dot_dir, world_pos, local_x, local_y),
    {
        let front = n_dot_dir.lt(Scalar::from_bits(ZERO_BITS));
        Hit {
            world_pos,
            world_normal: if front {
                self.normal
            } else {
                self.normal.neg()
            },
            local_pos: Vec3::new(local_x, local_y, Scalar::from_bits(ZERO_BITS)),
            local_normal: if front {
                Vec3::from_bits(ZERO_BITS, ZERO_BITS, ONE_BITS)
            } else {
                Vec3::from_bits(ZERO_BITS, ZERO_BITS, MINUS_ONE_BITS)
            },
            material: self.material,
            distance: crossing.distance,
            started_inside: crossing.started_inside,
            local_to_world: Mat3 { x_axis: self.right, y_axis: self.up, z_axis: self.normal },
        }
    }
}

/// A face of a box, named by the local axis that it is at right angles to
/// and the end of the box that it closes.
#[derive(Clone, Copy, Debug, PartialEq, Eq, Structural)]
pub enum Face {
    NegX,
    NegY,
    NegZ,
    PosX,
    PosY,
    PosZ,
}

impl Face {
    /// The place of the face in the order in which faces are tried.
    pub open spec fn order(self) -> int {
        match self {
            Face::NegX => 0,
            Face::NegY => 1,
            Face::NegZ => 2,
            Face::PosX => 3,
            Face::PosY => 4,
            Face::PosZ => 5,
        }
    }

    /// The distance of a point from this face, taken from the point's
    /// distances to the planes of the lower and of the upper corner.
    pub open spec fn distance(self, mins_dist: Vec3, maxs_dist: Vec3) -> Scalar {
        match self {
            Face::NegX => mins_dist.x,
            Face::NegY => mins_dist.y,
            Face::NegZ => mins_dist.z,
            Face::PosX => maxs_dist.x,
            Face::PosY => maxs_dist.y,
            Face::PosZ => maxs_dist.z,
        }
    }

    /// The outward normal of the face in the coordinates of the box.
    pub open spec fn spec_local_normal(self) -> Vec3 {
        match self {
            Face::NegX => neg_unit_x(),
            Face::NegY => neg_unit_y(),
            Face::NegZ => neg_unit_z(),
            Face::PosX => unit_x(),
            Face::PosY => unit_y(),
            Face::PosZ => unit_z(),
        }
    }

    /// The outward normal of the face in the world, for a box with the given frame.
    pub open spec fn spec_world_normal(self, frame: Mat3) -> Vec3 {
        match self {
            Face::NegX => frame.x_axis.spec_neg(),
            Face::NegY => frame.y_axis.spec_neg(),
            Face::NegZ => frame.z_axis.spec_neg(),
            Face::PosX => frame.x_axis,
            Face::PosY => frame.y_axis,
            Face::PosZ => frame.z_axis,
        }
    }

    /// The outward normal of the face in the coordinates of the box.
    pub fn local_normal(self) -> (r: Vec3)
        ensures
            r == self.spec_local_normal(),
    {
        match self {
            Face::NegX => Vec3::from_bits(MINUS_ONE_BITS, ZERO_BITS, ZERO_BITS),
            Face::NegY => Vec3::from_bits(ZERO_BITS, MINUS_ONE_BITS, ZERO_BITS),
            Face::NegZ => Vec3::from_bits(ZERO_BITS, ZERO_BITS, MINUS_ONE_BITS),
            Face::PosX => Vec3::from_bits(ONE_BITS, ZERO_BITS, ZERO_BITS),
            Face::PosY => Vec3::from_bits(ZERO_BITS, ONE_BITS, ZERO_BITS),
            Face::PosZ => Vec3::from_bits(ZERO_BITS, ZERO_BITS, ONE_BITS),
        }
    }

    /// The outward normal of the face in the world, for a box with the given frame.
    pub fn world_normal(self, frame: &Mat3) -> (r: Vec3)
        ensures
            r == self.spec_world_normal(*frame),
    {
        match self {
            Face::NegX => frame.x_axis.neg(),
            Face::NegY => frame.y_axis.neg(),
            Face::NegZ => frame.z_axis.neg(),
            Face::PosX => frame.x_axis,
            Face::PosY => frame.y_axis,
            Face::PosZ => frame.z_axis,
        }
    }
}

/// The face that is kept when `candidate` is tried after `best`: the
/// candidate only where its distance is less.
pub open spec fn nearer_face(best: Face, candidate: Face, mins_dist: Vec3, maxs_dist: Vec3) -> Face {
    if candidate.distance(mins_dist, maxs_dist).spec_lt(best.distance(mins_dist, maxs_dist)) {
        candidate
    } else {
        best
    }
}

/// A box with a place and an orientation of its own.
#[derive(Clone, Copy, Debug)]
pub struct Cuboid {
    world_to_local: Affine3,
    local_to_world: Affine3,
    mins: Vec3,
    maxs: Vec3,
    material: usize,
}

impl Cuboid {
    /// The transform from the world to the coordinates of the box.
    pub closed spec fn spec_world_to_local(self) -> Affine3 {
        self.world_to_local
    }

    /// The transform from the coordinates of the box to the world.
    pub closed spec fn spec_local_to_world(self) -> Affine3 {
        self.local_to_world
    }

    /// The lower corner, in the coordinates of the box.
    pub closed spec fn spec_mins(self) -> Vec3 {
        self.mins
    }

    /// The upper corner, in the coordinates of the box.
    pub closed spec fn spec_maxs(self) -> Vec3 {
        self.maxs
    }

    /// The number of the material in the scene.
    pub closed spec fn spec_material(self) -> usize {
        self.material
    }

    /// The interval of distances at which a line lies within all three
    /// slabs of a box: from the last entry to the first exit. `a` and `b`
    /// hold, axis by axis, the distances at which the line meets the planes
    /// of the lower and of the upper corner.
    pub open spec fn spec_slab_interval(a: Vec3, b: Vec3) -> (Scalar, Scalar) {
        (a.spec_min(b).spec_max_element(), a.spec_max(b).spec_min_element())
    }

    /// The crossing that an interval stands for: none where the interval is
    /// empty or ends at or before the ray's origin; else the ray began
    /// inside exactly where the entry is not positive, and then the exit
    /// counts, otherwise the entry.
    pub open spec fn spec_crossing(near: Scalar, far: Scalar) -> Option<Crossing> {
        if near.spec_le(far) && far.spec_gt(Scalar { bits: ZERO_BITS }) {
            let started_inside = near.spec_le(Scalar { bits: ZERO_BITS });
            Some(
                Crossing {
                    distance: if started_inside {
                        far
                    } else {
                        near
                    },
                    started_inside,
                },
            )
        } else {
            None
        }
    }

    /// The face that a point on the surface belongs to. The faces are tried
    /// in the order `NegX`, `NegY`, `NegZ`, `PosX`, `PosY`, `PosZ`; a face
    /// replaces the one kept so far only where it is nearer.
    pub open spec fn spec_nearest_face(mins_dist: Vec3, maxs_dist: Vec3) -> Face {
        let f1 = nearer_face(Face::NegX, Face::NegY, mins_dist, maxs_dist);
        let f2 = nearer_face(f1, Face::NegZ, mins_dist, maxs_dist);
        let f3 = nearer_face(f2, Face::PosX, mins_dist, maxs_dist);
        let f4 = nearer_face(f3, Face::PosY, mins_dist, maxs_dist);
        nearer_face(f4, Face::PosZ, mins_dist, maxs_dist)
    }

    /// The hit at a crossing.
    pub open spec fn spec_hit(self, crossing: Crossing, face: Face, local_pos: Vec3, world_pos: Vec3)
        -> Hit {
        Hit {
            world_pos,
            world_normal: face.spec_world_normal(self.spec_local_to_world().matrix3),
            local_pos,
            local_normal: face.spec_local_normal(),
            material: self.spec_material(),
            distance: crossing.distance,
            started_inside: crossing.started_inside,
            local_to_world: self.spec_local_to_world().matrix3,
        }
    }

    /// A box from its two transforms, each the inverse of the other, and two
    /// opposite corners in its own coordinates. The corners are sorted axis
    /// by axis.
    pub fn new(
        local_to_world: Affine3,
        world_to_local: Affine3,
        mins: Vec3,
        maxs: Vec3,
        material: usize,
    ) -> (r: Cuboid)
        ensures
            r.spec_local_to_world() == local_to_world,
            r.spec_world_to_local() == world_to_local,
            r.spec_mins() == mins.spec_min(maxs),
            r.spec_maxs() == mins.spec_max(maxs),
            r.spec_material() == material,
            !mins.has_nan() && !maxs.has_nan() ==> {
                &&& r.spec_mins().x.spec_le(r.spec_maxs().x)
                &&& r.spec_mins().y.spec_le(r.spec_maxs().y)
                &&& r.spec_mins().z.spec_le(r.spec_maxs().z)
            },
    {
        Cuboid {
            world_to_local,
            local_to_world,
            mins: mins.min(maxs),
            maxs: mins.max(maxs),
            material,
        }
    }

    /// The transform from the world to the coordinates of the box.
    pub fn world_to_local(&self) -> (r: Affine3)
        ensures
            r == self.spec_world_to_local(),
    {
        self.world_to_local
    }

    /// The transform from the coordinates of the box to the world.
    pub fn local_to_world(&self) -> (r: Affine3)
        ensures
            r == self.spec_local_to_world(),
    {
        self.local_to_world
    }

    /// The lower corner, in the coordinates of the box.
    pub fn mins(&self) -> (r: Vec3)
        ensures
            r == self.spec_mins(),
    {
        self.mins
    }

    /// The upper corner, in the coordinates of the box.
    pub fn maxs(&self) -> (r: Vec3)
        ensures
            r == self.spec_maxs(),
    {
        self.maxs
    }

    /// The number of the material in the scene.
    pub fn material(&self) -> (r: usize)
        ensures
            r == self.spec_material(),
    {
        self.material
    }

    /// The interval of distances at which a line lies inside the box. `a`
    /// and `b` hold, axis by axis, the quotients of the lower and of the
    /// upper corner, seen from the ray's origin, by the ray's direction.
    pub fn slab_interval(a: Vec3, b: Vec3) -> (r: (Scalar, Scalar))
        ensures
            r == Cuboid::spec_slab_interval(a, b),
    {
        (a.min(b).max_element(), a.max(b).min_element())
    }

    /// Decides whether a ray whose line lies inside the box from `near` to
    /// `far` hits the box, and where.
    pub fn crossing(near: Scalar, far: Scalar) -> (r: Option<Crossing>)
        ensures
            r == Cuboid::spec_crossing(near, far),
    {
        let zero = Scalar::from_bits(ZERO_BITS);
        if near.le(far) && far.gt(zero) {
            let started_inside = near.le(zero);
            let distance = if started_inside {
                far
            } else {
                near
            };
            Some(Crossing { distance, started_inside })
        } else {
            None
        }
    }

    /// The face that a point on the surface belongs to. `mins_offset` and
    /// `maxs_offset` hold, axis by axis, the lower and the upper corner as
    /// seen from the point; their sizes are the point's distances from the
    /// six faces. Where no offset is a NaN, the face is the first, in the
    /// order of trying, of those at the least distance.
    pub fn nearest_face(mins_offset: Vec3, maxs_offset: Vec3) -> (face: Face)
        ensures
            face == Cuboid::spec_nearest_face(mins_offset.spec_abs(), maxs_offset.spec_abs()),
            !mins_offset.has_nan() && !maxs_offset.has_nan() ==> forall|other: Face|
                {
                    &&& face.distance(mins_offset.spec_abs(), maxs_offset.spec_abs()).spec_le(
                        #[trigger] other.distance(mins_offset.spec_abs(), maxs_offset.spec_abs()),
                    )
                    &&& other.order() < face.order() ==> face.distance(
                        mins_offset.spec_abs(),
                        maxs_offset.spec_abs(),
                    ).spec_lt(other.distance(mins_offset.spec_abs(), maxs_offset.spec_abs()))
                },
    {
        let mins_dist = mins_offset.abs();
        let maxs_dist = maxs_offset.abs();
        let mut best = mins_dist.x;
        let mut face = Face::NegX;
        if mins_dist.y.lt(best) {
            best = mins_dist.y;
            face = Face::NegY;
        }
        if mins_dist.z.lt(best) {
            best = mins_dist.z;
            face = Face::NegZ;
        }
        if maxs_dist.x.lt(best) {
            best = maxs_dist.x;
            face = Face::PosX;
        }
        if maxs_dist.y.lt(best) {
            best = maxs_dist.y;
            face = Face::PosY;
        }
        if maxs_dist.z.lt(best) {
            face = Face::PosZ;
        }
        face
    }

    /// Puts together the hit at `crossing`. `local_pos` is the point on the
    /// ray at the crossing's distance, in the coordinates of the box;
    /// `world_pos` is the same point in the world; `face` is the face that
    /// the point belongs to. The local frame is the frame of the box.
    pub fn hit(&self, crossing: Crossing, face: Face, local_pos: Vec3, world_pos: Vec3) -> (r: Hit)
        ensures
            r == self.spec_hit(crossing, face, local_pos, world_pos),
    {
        Hit {
            world_pos,
            world_normal: face.world_normal(&self.local_to_world.matrix3),
            local_pos,
            local_normal: face.local_normal(),
            material: self.material,
            distance: crossing.distance,
            started_inside: crossing.started_inside,
            local_to_world: self.local_to_world.matrix3,
        }
    }
}

/// A surface of the scene.
#[derive(Clone, Copy, Debug)]
pub enum Shape {
    Sphere(Sphere),
    Plane(Plane),
    Cuboid(Cuboid),
}

impl Shape {
    /// The number of the shape's material in the scene.
    pub open spec fn spec_material(self) -> usize {
        match self {
            Shape::Sphere(s) => s.material,
            Shape::Plane(p) => p.material,
            Shape::Cuboid(c) => c.spec_material(),
        }
    }

    /// The number of the shape's material in the scene.
    pub fn material(&self) -> (r: usize)
        ensures
            r == self.spec_material(),
    {
        match self {
            Shape::Sphere(s) => s.material,
            Shape::Plane(p) => p.material,
            Shape::Cuboid(c) => c.material(),
        }
    }
}

/// Whether a number lies between two others, whichever of them is the lesser.
pub open spec fn between(t: Scalar, a: Scalar, b: Scalar) -> bool {
    (a.spec_le(t) && t.spec_le(b)) || (b.spec_le(t) && t.spec_le(a))
}

/// A ray that begins inside a sphere leaves it at the far root: where the
/// near root is negative and the far root positive, the ray is told to have
/// begun inside, and the far root is the distance of the hit.
pub proof fn lemma_origin_inside_sphere(near: Scalar, far: Scalar)
    requires
        near.spec_lt(Scalar { bits: ZERO_BITS }),
        far.spec_gt(Scalar { bits: ZERO_BITS }),
    ensures
        Sphere::spec_crossing(Some((near, far))) == Some(
            Crossing { distance: far, started_inside: true },
        ),
{
}

/// A ray that begins outside a sphere and looks at it hits it at the near
/// root: where the near root is not negative and the far root is positive,
/// the near root is the distance of the hit, and the ray is told to have
/// begun outside.
pub proof fn lemma_origin_before_sphere(near: Scalar, far: Scalar)
    requires
        near.spec_ge(Scalar { bits: ZERO_BITS }),
        far.spec_gt(Scalar { bits: ZERO_BITS }),
    ensures
        Sphere::spec_crossing(Some((near, far))) == Some(
            Crossing { distance: near, started_inside: false },
        ),
{
}

/// A ray whose direction lies in a plane does not hit it: where the product
/// of normal and direction is zero, of either sign, there is no crossing,
/// whatever the other numbers are.
pub proof fn lemma_parallel_ray_misses(n_dot_dir: Scalar, n_dot_o: Scalar, distance: Scalar)
    requires
        n_dot_dir.is_zero(),
    ensures
        Plane::spec_crossing(n_dot_dir, n_dot_o, distance) is None,
{
}

/// The slab test cuts the line by six half-spaces, one for each face: a
/// distance lies in the interval that the test finds exactly where, on each
/// axis, it lies between the distances to the two planes of that axis.
pub proof fn lemma_slab_interval_clips(a: Vec3, b: Vec3, t: Scalar)
    requires
        !a.has_nan(),
        !b.has_nan(),
        !t.is_nan(),
    ensures
        ({
            let (near, far) = Cuboid::spec_slab_interval(a, b);
            near.spec_le(t) && t.spec_le(far) <==> between(t, a.x, b.x) && between(t, a.y, b.y)
                && between(t, a.z, b.z)
        }),
{
}

/// The component of a vector on the axis with the number `axis`, counted
/// from 0.
pub open spec fn component(v: Vec3, axis: int) -> Scalar {
    if axis == 0 {
        v.x
    } else if axis == 1 {
        v.y
    } else {
        v.z
    }
}

/// Whether a line never meets the two planes of an axis and lies between
/// them: of the two distances one is negative infinity and the other
/// positive infinity. That is what the quotients of a ray are on an axis
/// that the ray does not move along, where it begins between the planes.
pub open spec fn unbounded(p: Scalar, q: Scalar) -> bool {
    ||| p.bits == NEG_INFINITY_BITS && q.bits == INFINITY_BITS
    ||| p.bits == INFINITY_BITS && q.bits == NEG_INFINITY_BITS
}

/// For a ray along one axis of a box that begins between the planes of the
/// other two axes, the slab test is the arithmetic of that one axis: the
/// interval runs from the lesser to the greater of the two distances on
/// the axis. Where the lesser is positive the ray hits there, and is told
/// to have begun outside.
pub proof fn lemma_axis_aligned_ray(a: Vec3, b: Vec3, axis: int)
    requires
        0 <= axis < 3,
        !component(a, axis).is_nan(),
        !component(b, axis).is_nan(),
        forall|other: int|
            0 <= other < 3 && other != axis ==> unbounded(
                #[trigger] component(a, other),
                component(b, other),
            ),
    ensures
        ({
            let lesser = component(a, axis).spec_min(component(b, axis));
            let greater = component(a, axis).spec_max(component(b, axis));
            &&& Cuboid::spec_slab_interval(a, b) == (lesser, greater)
            &&& lesser.spec_gt(Scalar { bits: ZERO_BITS }) ==> Cuboid::spec_crossing(lesser, greater)
                == Some(Crossing { distance: lesser, started_inside: false })
        }),
{
    assert(unbounded(component(a, 0), component(b, 0)) || axis == 0);
    assert(unbounded(component(a, 1), component(b, 1)) || axis == 1);
    assert(unbounded(component(a, 2), component(b, 2)) || axis == 2);
}

/// A point that is nearer to one face than to every other belongs to that
/// face, wherever the face stands in the order of trying.
pub proof fn lemma_strictly_nearest_face(mins_dist: Vec3, maxs_dist: Vec3, face: Face)
    requires
        forall|other: Face|
            other != face ==> face.distance(mins_dist, maxs_dist).spec_lt(
                #[trigger] other.distance(mins_dist, maxs_dist),
            ),
    ensures
        Cuboid::spec_nearest_face(mins_dist, maxs_dist) == face,
{
    let d = |f: Face| f.distance(mins_dist, maxs_dist);
    assert(face == Face::NegX || d(face).spec_lt(d(Face::NegX)));
    assert(face == Face::NegY || d(face).spec_lt(d(Face::NegY)));
    assert(face == Face::NegZ || d(face).spec_lt(d(Face::NegZ)));
    assert(face == Face::PosX || d(face).spec_lt(d(Face::PosX)));
    assert(face == Face::PosY || d(face).spec_lt(d(Face::PosY)));
    assert(face == Face::PosZ || d(face).spec_lt(d(Face::PosZ)));
}

} // verus!
