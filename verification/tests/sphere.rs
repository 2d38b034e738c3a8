use rust_ray_tracing::engine::hittables::hittable::{HitRecord, Hittable};
use rust_ray_tracing::engine::hittables::hittable_collection::HittableCollection;
use rust_ray_tracing::engine::hittables::sphere::{Crossing, Quadratic, Sphere};
use rust_ray_tracing::engine::ray::Ray;
use rust_ray_tracing::scalar::Scalar;
use rust_ray_tracing::vectors::point::Point;
use rust_ray_tracing::vectors::vector::Vector;

fn s(x: f64) -> Scalar {
    Scalar::from_bits(x.to_bits())
}

fn f(x: Scalar) -> f64 {
    f64::from_bits(x.to_bits())
}

fn dot(a: [f64; 3], b: [f64; 3]) -> f64 {
    a[0] * b[0] + a[1] * b[1] + a[2] * b[2]
}

fn crossing(center: [f64; 3], radius: f64, origin: [f64; 3], direction: [f64; 3], t: f64) -> Crossing {
    let point = [
        origin[0] + t * direction[0],
        origin[1] + t * direction[1],
        origin[2] + t * direction[2],
    ];
    let outward = [
        (point[0] - center[0]) / radius,
        (point[1] - center[1]) / radius,
        (point[2] - center[2]) / radius,
    ];
    Crossing {
        t: s(t),
        point: Point::new(s(point[0]), s(point[1]), s(point[2])),
        outward_normal: Vector::new(s(outward[0]), s(outward[1]), s(outward[2])),
        facing: s(dot(direction, outward)),
    }
}

fn solve(center: [f64; 3], radius: f64, origin: [f64; 3], direction: [f64; 3]) -> Quadratic {
    let oc = [origin[0] - center[0], origin[1] - center[1], origin[2] - center[2]];
    let a = dot(direction, direction);
    let half_b = dot(oc, direction);
    let c = dot(oc, oc) - radius * radius;
    let discriminant = half_b * half_b - a * c;
    let root = discriminant.sqrt();
    Quadratic {
        discriminant: s(discriminant),
        near: crossing(center, radius, origin, direction, (-half_b - root) / a),
        far: crossing(center, radius, origin, direction, (-half_b + root) / a),
    }
}

const CENTER: [f64; 3] = [0.0, 0.0, -5.0];

fn unit_sphere() -> Sphere<u8> {
    Sphere::new(Point::new(s(CENTER[0]), s(CENTER[1]), s(CENTER[2])), s(1.0), 7)
}

fn components(v: &Vector) -> [f64; 3] {
    [f(v.x), f(v.y), f(v.z)]
}

fn place(p: &Point) -> [f64; 3] {
    [f(p.x), f(p.y), f(p.z)]
}

#[test]
fn sphere_new_keeps_its_parts() {
    let sphere = unit_sphere();
    assert_eq!(place(&sphere.center), CENTER);
    assert_eq!(f(sphere.radius), 1.0);
    assert_eq!(sphere.material, 7);
}

#[test]
fn ray_past_the_sphere_hits_nothing() {
    let solved = solve(CENTER, 1.0, [0.0, 2.0, 0.0], [0.0, 0.0, -1.0]);
    assert!(f(solved.discriminant) < 0.0);
    assert!(unit_sphere().hit_from(&solved, s(0.001), s(f64::INFINITY)).is_none());
}

#[test]
fn negative_discriminant_wins_over_roots_in_the_window() {
    let mut solved = solve(CENTER, 1.0, [0.0, 0.0, 0.0], [0.0, 0.0, -1.0]);
    solved.discriminant = s(-1e-300);
    assert!(unit_sphere().hit_from(&solved, s(0.001), s(f64::INFINITY)).is_none());
}

#[test]
fn tangent_ray_hits_once() {
    let solved = solve(CENTER, 1.0, [0.0, 1.0, 0.0], [0.0, 0.0, -1.0]);
    assert_eq!(f(solved.discriminant), 0.0);
    assert_eq!(f(solved.near.t), 5.0);
    assert_eq!(f(solved.far.t), 5.0);
    let hit = unit_sphere().hit_from(&solved, s(0.001), s(f64::INFINITY)).unwrap();
    assert_eq!(f(hit.t), 5.0);
    assert_eq!(place(&hit.point), [0.0, 1.0, -5.0]);
    assert!(unit_sphere().hit_from(&solved, s(5.0), s(f64::INFINITY)).is_none());
    assert!(unit_sphere().hit_from(&solved, s(0.001), s(4.9)).is_none());
}

#[test]
fn ray_from_outside_hits_the_near_side() {
    let solved = solve(CENTER, 1.0, [0.0, 0.0, 0.0], [0.0, 0.0, -1.0]);
    assert_eq!(f(solved.near.t), 4.0);
    assert_eq!(f(solved.far.t), 6.0);
    let hit = unit_sphere().hit_from(&solved, s(0.001), s(f64::INFINITY)).unwrap();
    assert_eq!(f(hit.t), 4.0);
    assert_eq!(place(&hit.point), [0.0, 0.0, -4.0]);
    assert_eq!(components(&hit.normal), [0.0, 0.0, 1.0]);
    assert!(hit.front_face);
    assert_eq!(hit.material, 7);
}

#[test]
fn ray_from_inside_hits_the_far_side_with_the_normal_turned() {
    let solved = solve(CENTER, 1.0, CENTER, [0.0, 0.0, -1.0]);
    assert_eq!(f(solved.near.t), -1.0);
    assert_eq!(f(solved.far.t), 1.0);
    let hit = unit_sphere().hit_from(&solved, s(0.001), s(f64::INFINITY)).unwrap();
    assert_eq!(f(hit.t), 1.0);
    assert_eq!(place(&hit.point), [0.0, 0.0, -6.0]);
    assert_eq!(components(&hit.normal), [0.0, 0.0, 1.0]);
    assert!(!hit.front_face);
}

#[test]
fn far_root_is_taken_when_the_near_one_is_outside_the_window() {
    let solved = solve(CENTER, 1.0, [0.0, 0.0, 0.0], [0.0, 0.0, -1.0]);
    let hit = unit_sphere().hit_from(&solved, s(4.0), s(f64::INFINITY)).unwrap();
    assert_eq!(f(hit.t), 6.0);
    assert_eq!(components(&hit.normal), [0.0, 0.0, 1.0]);
    assert!(!hit.front_face);
    let hit = unit_sphere().hit_from(&solved, s(4.5), s(6.0)).unwrap();
    assert_eq!(f(hit.t), 6.0);
}

#[test]
fn upper_end_of_the_window_is_inside() {
    let solved = solve(CENTER, 1.0, [0.0, 0.0, 0.0], [0.0, 0.0, -1.0]);
    let hit = unit_sphere().hit_from(&solved, s(0.001), s(4.0)).unwrap();
    assert_eq!(f(hit.t), 4.0);
}

#[test]
fn both_roots_outside_the_window_hit_nothing() {
    let solved = solve(CENTER, 1.0, [0.0, 0.0, 0.0], [0.0, 0.0, -1.0]);
    assert!(unit_sphere().hit_from(&solved, s(6.0), s(f64::INFINITY)).is_none());
    assert!(unit_sphere().hit_from(&solved, s(0.001), s(3.9)).is_none());
    assert!(unit_sphere().hit_from(&solved, s(4.0), s(5.9)).is_none());
}

#[test]
fn sphere_behind_the_ray_hits_nothing() {
    let solved = solve(CENTER, 1.0, [0.0, 0.0, 0.0], [0.0, 0.0, 1.0]);
    assert_eq!(f(solved.near.t), -6.0);
    assert_eq!(f(solved.far.t), -4.0);
    assert!(unit_sphere().hit_from(&solved, s(0.001), s(f64::INFINITY)).is_none());
}

#[test]
fn narrowing_the_window_keeps_or_drops_the_hit() {
    let solved = solve(CENTER, 1.0, [0.0, 0.0, 0.0], [0.0, 0.0, -1.0]);
    for bound in [3.0, 4.0, 5.0, 6.0, 7.0] {
        let narrow = unit_sphere().hit_from(&solved, s(0.001), s(bound)).map(|r| f(r.t));
        let wide = unit_sphere()
            .hit_from(&solved, s(0.001), s(f64::INFINITY))
            .map(|r| f(r.t))
            .filter(|t| *t <= bound);
        assert_eq!(narrow, wide);
    }
}

#[test]
fn oriented_keeps_the_outward_normal_for_a_ray_from_outside() {
    let record: HitRecord<u8> = HitRecord::oriented(
        Point::new(s(1.0), s(2.0), s(3.0)),
        Vector::new(s(0.0), s(1.0), s(0.0)),
        s(2.5),
        s(-0.25),
        9,
    );
    assert!(record.front_face);
    assert_eq!(components(&record.normal), [0.0, 1.0, 0.0]);
    assert_eq!(place(&record.point), [1.0, 2.0, 3.0]);
    assert_eq!(f(record.t), 2.5);
    assert_eq!(record.material, 9);
}

#[test]
fn oriented_turns_the_normal_for_a_ray_from_inside() {
    let record: HitRecord<u8> = HitRecord::oriented(
        Point::new(s(1.0), s(2.0), s(3.0)),
        Vector::new(s(0.5), s(-1.0), s(0.25)),
        s(2.5),
        s(0.25),
        9,
    );
    assert!(!record.front_face);
    assert_eq!(components(&record.normal), [-0.5, 1.0, -0.25]);
}

#[test]
fn oriented_counts_a_grazing_ray_as_coming_from_inside() {
    let record: HitRecord<u8> = HitRecord::oriented(
        Point::new(s(0.0), s(0.0), s(0.0)),
        Vector::new(s(1.0), s(0.0), s(0.0)),
        s(1.0),
        s(0.0),
        0,
    );
    assert!(!record.front_face);
    assert_eq!(f(record.normal.x), -1.0);
}

/// A sphere that solves its own equation.
struct Ball {
    center: [f64; 3],
    radius: f64,
    sphere: Sphere<u8>,
}

impl Ball {
    fn new(center: [f64; 3], radius: f64, material: u8) -> Ball {
        let sphere = Sphere::new(Point::new(s(center[0]), s(center[1]), s(center[2])), s(radius), material);
        Ball { center, radius, sphere }
    }
}

impl Hittable for Ball {
    type Surface = u8;

    fn hit_spec(&self, ray: Ray, t_min: Scalar, t_max: Scalar) -> Option<HitRecord<u8>> {
        self.hit(&ray, t_min, t_max)
    }

    fn hit(&self, ray: &Ray, t_min: Scalar, t_max: Scalar) -> Option<HitRecord<u8>> {
        let solved = solve(self.center, self.radius, place(&ray.origin), components(&ray.direction));
        self.sphere.hit_from(&solved, t_min, t_max)
    }

    fn lemma_hit_in_window(&self, _ray: Ray, _t_min: Scalar, _t_max: Scalar) {}

    fn lemma_hit_narrowed(&self, _ray: Ray, _t_min: Scalar, _bound: Scalar, _t_max: Scalar) {}
}

fn along_z() -> Ray {
    Ray::new(Point::new(s(0.0), s(0.0), s(0.0)), Vector::new(s(0.0), s(0.0), s(-1.0)))
}

#[test]
fn of_two_spheres_along_a_ray_the_nearer_is_hit_in_either_order() {
    let mut near_first = HittableCollection::new();
    near_first.add(Ball::new([0.0, 0.0, -2.0], 1.0, 1));
    near_first.add(Ball::new([0.0, 0.0, -6.0], 1.0, 5));
    let mut far_first = HittableCollection::new();
    far_first.add(Ball::new([0.0, 0.0, -6.0], 1.0, 5));
    far_first.add(Ball::new([0.0, 0.0, -2.0], 1.0, 1));
    for world in [near_first, far_first] {
        let hit = world.hit(&along_z(), s(0.001), s(f64::INFINITY)).unwrap();
        assert_eq!(f(hit.t), 1.0);
        assert_eq!(hit.material, 1);
        assert_eq!(place(&hit.point), [0.0, 0.0, -1.0]);
        assert_eq!(components(&hit.normal), [0.0, 0.0, 1.0]);
        assert!(hit.front_face);
        let hit = world.hit(&along_z(), s(3.0), s(f64::INFINITY)).unwrap();
        assert_eq!(f(hit.t), 5.0);
        assert_eq!(hit.material, 5);
    }
}

#[test]
fn a_scene_of_spheres_that_the_ray_passes_hits_nothing() {
    let mut world = HittableCollection::new();
    world.add(Ball::new([3.0, 0.0, -2.0], 1.0, 1));
    world.add(Ball::new([0.0, -4.0, -6.0], 1.0, 5));
    assert!(world.hit(&along_z(), s(0.001), s(f64::INFINITY)).is_none());
}
