use pathtracer::geom::{Hit, Mat3, Vec3};
use pathtracer::materials::{Checkerboard, Emitter, Lambertian, Material};
use pathtracer::scalar::Scalar;
use pathtracer::scene::{highlight_base, nearest_hit, Scene, MIN_HIT_DISTANCE_BITS};
use pathtracer::shapes::{Shape, Sphere};

fn s(x: f32) -> Scalar {
    Scalar::from_bits(x.to_bits())
}

fn v(x: f32, y: f32, z: f32) -> Vec3 {
    Vec3::new(s(x), s(y), s(z))
}

fn hit_at(distance: f32, started_inside: bool, material: usize) -> Option<Hit> {
    Some(Hit {
        world_pos: v(0.0, 0.0, 0.0),
        world_normal: v(0.0, 0.0, 1.0),
        local_pos: v(0.0, 0.0, 0.0),
        local_normal: v(0.0, 0.0, 1.0),
        material,
        distance: s(distance),
        started_inside,
        local_to_world: Mat3::identity(),
    })
}

fn grey() -> Material {
    Material::Lambertian(Lambertian(v(0.5, 0.5, 0.5)))
}

fn light() -> Material {
    Material::Emitter(Emitter { color: v(1.0, 1.0, 1.0), focus: s(0.0) })
}

fn ball(material: usize) -> Shape {
    Shape::Sphere(Sphere { center: v(0.0, 0.0, 1.5), radius: s(1.5), material })
}

#[test]
fn sphere_over_plane_is_seen_before_the_plane() {
    let outcomes = vec![hit_at(7.0, false, 0), hit_at(10.0, false, 1)];
    assert_eq!(nearest_hit(&outcomes), Some(0));
    let swapped = vec![hit_at(10.0, false, 1), hit_at(7.0, false, 0)];
    assert_eq!(nearest_hit(&swapped), Some(1));
}

#[test]
fn nearest_hit_of_nothing_is_the_background() {
    assert_eq!(nearest_hit(&Vec::new()), None);
    assert_eq!(nearest_hit(&vec![None, None, None]), None);
}

#[test]
fn hits_from_inside_are_not_seen() {
    let outcomes = vec![hit_at(1.0, true, 0), hit_at(5.0, false, 1), None];
    assert_eq!(nearest_hit(&outcomes), Some(1));
    assert_eq!(nearest_hit(&vec![hit_at(1.0, true, 0)]), None);
}

#[test]
fn hits_at_the_start_of_the_ray_are_not_seen() {
    assert_eq!(MIN_HIT_DISTANCE_BITS, 0.0001f32.to_bits());
    let outcomes = vec![hit_at(0.0001, false, 0), hit_at(0.00011, false, 1), hit_at(3.0, false, 2)];
    assert_eq!(nearest_hit(&outcomes), Some(1));
    let behind = vec![hit_at(-1.0, false, 0), hit_at(0.0, false, 0), hit_at(f32::NAN, false, 0)];
    assert_eq!(nearest_hit(&behind), None);
}

#[test]
fn of_two_hits_at_one_distance_the_first_is_seen() {
    let outcomes = vec![None, hit_at(2.0, false, 0), hit_at(2.0, false, 1), hit_at(2.5, false, 2)];
    assert_eq!(nearest_hit(&outcomes), Some(1));
    let later_nearer = vec![hit_at(2.0, false, 0), hit_at(2.0, false, 1), hit_at(1.5, false, 2)];
    assert_eq!(nearest_hit(&later_nearer), Some(2));
    let far = vec![hit_at(f32::INFINITY, false, 0), hit_at(f32::MAX, false, 1)];
    assert_eq!(nearest_hit(&far), Some(1));
}

#[test]
fn highlight_is_cut_off_behind_the_sun() {
    assert_eq!(highlight_base(s(0.75)).to_bits(), 0.75f32.to_bits());
    assert_eq!(highlight_base(s(-0.75)).to_bits(), 0.0f32.to_bits());
    assert_eq!(highlight_base(s(0.0)).to_bits(), 0.0f32.to_bits());
    assert_eq!(highlight_base(s(f32::NAN)).to_bits(), 0.0f32.to_bits());
    for cosine in [-1.0f32, -0.2, 0.1, 0.9, 1.0] {
        assert_eq!(highlight_base(s(cosine)).to_bits(), cosine.max(0.0).to_bits());
    }
}

#[test]
fn materials_are_numbered_in_the_order_of_adding() {
    let mut scene = Scene::new();
    assert_eq!(scene.material_count(), 0);
    assert_eq!(scene.add_material(grey()), Some(0));
    assert_eq!(scene.add_material(light()), Some(1));
    assert_eq!(scene.material_count(), 2);
    assert!(matches!(scene.material(0), Material::Lambertian(_)));
    assert!(matches!(scene.material(1), Material::Emitter(_)));
}

#[test]
fn checkerboard_must_name_materials_that_are_there() {
    let mut scene = Scene::new();
    let board = |a, b| Material::Checkerboard(Checkerboard { size: s(1.0), a, b });
    assert_eq!(scene.add_material(board(0, 0)), None);
    assert_eq!(scene.material_count(), 0);
    assert_eq!(scene.add_material(grey()), Some(0));
    assert_eq!(scene.add_material(board(0, 1)), None);
    assert_eq!(scene.add_material(board(1, 0)), None);
    assert_eq!(scene.add_material(board(0, 0)), Some(1));
    assert_eq!(scene.add_material(board(1, 0)), Some(2));
    assert_eq!(scene.add_material(board(3, 0)), None);
    assert_eq!(scene.material_count(), 3);
}

#[test]
fn shape_must_name_a_material_that_is_there() {
    let mut scene = Scene::new();
    assert_eq!(scene.add_shape(ball(0)), None);
    assert_eq!(scene.shape_count(), 0);
    assert_eq!(scene.add_material(grey()), Some(0));
    assert_eq!(scene.add_shape(ball(0)), Some(0));
    assert_eq!(scene.add_shape(ball(1)), None);
    assert_eq!(scene.add_shape(ball(0)), Some(1));
    assert_eq!(scene.shape_count(), 2);
    assert_eq!(scene.shape(1).material(), 0);
}
