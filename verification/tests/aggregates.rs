use ray_tracing::figures::aabb::AABB;
use ray_tracing::figures::bvh::{AxisOrder, BvhNode};
use ray_tracing::figures::constant_medium::ConstantMedium;
use ray_tracing::figures::cube::Cube;
use ray_tracing::figures::hittable::{HitRecord, Hittable};
use ray_tracing::figures::hittable_list::HitList;
use ray_tracing::figures::quad::{Disk, Quad, QuadPrimitive, Rect, Tri};
use ray_tracing::figures::rotate::{rotate_vec3, rotation, transpose, Rotate};
use ray_tracing::figures::sphere::Sphere;
use ray_tracing::figures::translate::Translate;
use ray_tracing::materials::lambertian::Lambertian;
use ray_tracing::materials::material::Material;
use ray_tracing::utility::interval::Interval;
use ray_tracing::utility::ray::Ray;
use ray_tracing::utility::scalar::Scalar;
use ray_tracing::utility::utils::Sampler;
use ray_tracing::utility::vec3::Vec3;
use std::sync::Arc;

fn s(x: f64) -> Scalar {
    Scalar::from_raw((x * 1e6).round() as i64)
}

fn f(x: Scalar) -> f64 {
    x.raw as f64 / 1e6
}

fn vec(x: f64, y: f64, z: f64) -> Vec3 {
    Vec3::new(s(x), s(y), s(z))
}

fn mat(r: f64, g: f64, b: f64) -> Arc<Material> {
    Arc::new(Material::Lambertian(Lambertian::new(vec(r, g, b))))
}

fn ball(x: f64, y: f64, z: f64, radius: f64, m: &Arc<Material>) -> Arc<Hittable> {
    Arc::new(Hittable::Sphere(Sphere::new(vec(x, y, z), s(radius), Arc::clone(m))))
}

fn window() -> Interval {
    Interval::new(s(0.001), Scalar::infinity())
}

fn hit(h: &Hittable, r: &Ray, w: Interval) -> Option<HitRecord> {
    h.hit(r, w, &mut Sampler::new(1))
}

#[test]
fn rectangle_hit_and_miss() {
    let m = mat(0.5, 0.5, 0.5);
    let q: Quad<Rect> = Quad::new(vec(-1., -1., -2.), vec(2., 0., 0.), vec(0., 2., 0.), Arc::clone(&m));
    assert_eq!(q.normal, vec(0., 0., 1.));
    assert_eq!(q.d, s(-2.));
    assert_eq!(q.area, s(4.));
    let ray = Ray::new(vec(0.5, -0.5, 0.), vec(0., 0., -1.));
    let rec = q.hit(&ray, window()).expect("the ray aims at the rectangle");
    assert_eq!(rec.t, s(2.));
    assert_eq!(rec.p, vec(0.5, -0.5, -2.));
    assert_eq!(rec.u, s(0.75));
    assert_eq!(rec.v, s(0.25));
    assert_eq!(rec.normal, vec(0., 0., 1.));
    assert!(rec.front_face);
    assert!(Arc::ptr_eq(&rec.material, &m));
    let behind = Ray::new(vec(0.5, -0.5, -5.), vec(0., 0., 1.));
    let rec = q.hit(&behind, window()).expect("the ray aims at the back");
    assert!(!rec.front_face);
    assert_eq!(rec.normal, vec(0., 0., -1.));
    let beside = Ray::new(vec(1.5, 0., 0.), vec(0., 0., -1.));
    assert!(q.hit(&beside, window()).is_none());
    let parallel = Ray::new(vec(0., 0., 0.), vec(1., 0., 0.));
    assert!(q.hit(&parallel, window()).is_none());
    assert!(q.hit(&ray, Interval::new(s(0.001), s(1.9))).is_none());
    assert!(q.hit(&ray, Interval::new(s(0.001), s(2.))).is_some());
    let corner = Ray::new(vec(1., 1., 0.), vec(0., 0., -1.));
    assert!(q.hit(&corner, window()).is_some());
    let b = q.bounding_box();
    assert_eq!(b.x, Interval::new(s(-1.), s(1.)));
    assert_eq!(b.y, Interval::new(s(-1.), s(1.)));
    assert_eq!(b.z, Interval::new(s(-2.00005), s(-1.99995)));
}

#[test]
fn large_rectangle_keeps_its_coordinates() {
    let q: Quad<Rect> = Quad::new(vec(0., 0., 555.), vec(555., 0., 0.), vec(0., 555., 0.), mat(1., 1., 1.));
    let ray = Ray::new(vec(278., 278., -800.), vec(100., -50., 1355.));
    let rec = q.hit(&ray, window()).expect("the ray aims at the wall");
    assert!((f(rec.t) - 1.0).abs() < 1e-5);
    assert!((f(rec.u) - 378. / 555.).abs() < 1e-5);
    assert!((f(rec.v) - 228. / 555.).abs() < 1e-5);
}

#[test]
fn interiors_of_the_flat_shapes() {
    assert_eq!(Rect::is_interior(s(0.), s(1.)), Some((s(0.), s(1.))));
    assert_eq!(Rect::is_interior(s(0.5), s(0.25)), Some((s(0.5), s(0.25))));
    assert_eq!(Rect::is_interior(s(1.000001), s(0.5)), None);
    assert_eq!(Rect::is_interior(s(0.5), s(-0.000001)), None);
    assert_eq!(Tri::is_interior(s(0.25), s(0.25)), Some((s(0.25), s(0.25))));
    assert_eq!(Tri::is_interior(s(0.), s(0.25)), None);
    assert_eq!(Tri::is_interior(s(0.25), s(0.)), None);
    assert_eq!(Tri::is_interior(s(0.5), s(0.5)), None);
    assert_eq!(Tri::is_interior(s(0.6), s(0.6)), None);
    assert_eq!(Tri::is_interior(s(0.499999), s(0.5)), Some((s(0.499999), s(0.5))));
    assert_eq!(Disk::is_interior(s(0.), s(0.)), Some((s(0.5), s(0.5))));
    assert_eq!(Disk::is_interior(s(1.), s(0.)), Some((s(1.), s(0.5))));
    assert_eq!(Disk::is_interior(s(0.), s(-1.)), Some((s(0.5), s(0.))));
    assert_eq!(Disk::is_interior(s(0.8), s(0.8)), None);
    assert_eq!(Disk::is_interior(s(-0.6), s(0.8)), Some((s(0.2), s(0.9))));
}

#[test]
fn boxes_of_the_flat_shapes() {
    let q = vec(1., 2., 3.);
    let u = vec(2., 0., 0.);
    let v = vec(0., 0., -4.);
    let want = AABB::from_points(vec(1., 2., -1.), vec(3., 2., 3.));
    assert_eq!(Rect::set_bounding_box(q, u, v), want);
    assert_eq!(Tri::set_bounding_box(q, u, v), want);
    assert_eq!(Disk::set_bounding_box(q, u, v), AABB::from_points(vec(-1., 2., -1.), vec(3., 2., 7.)));
    let disk: Quad<Disk> = Quad::new(q, u, v, mat(1., 1., 1.));
    let edge = Ray::new(vec(-0.9, 5., 3.), vec(0., -1., 0.));
    assert!(disk.bounding_box().hit(&edge, window()));
    assert!(disk.hit(&edge, window()).is_some());
    let tri: Quad<Tri> = Quad::new(q, u, v, mat(1., 1., 1.));
    let inside = Ray::new(vec(1.5, 5., 2.), vec(0., -1., 0.));
    assert!(tri.hit(&inside, window()).is_some());
    let outside = Ray::new(vec(2.9, 5., -0.9), vec(0., -1., 0.));
    assert!(tri.hit(&outside, window()).is_none());
}

#[test]
fn list_reports_the_nearest_hit() {
    let red = mat(1., 0., 0.);
    let green = mat(0., 1., 0.);
    let blue = mat(0., 0., 1.);
    let mut list = HitList::new();
    assert_eq!(list.len(), 0);
    assert_eq!(list.bounding_box(), AABB::empty());
    list.push(ball(0., 0., -5., 1., &red));
    list.push(ball(0., 0., -2., 0.5, &green));
    list.push(ball(0., 0., -9., 1., &blue));
    assert_eq!(list.len(), 3);
    assert_eq!(list.bounding_box().z, Interval::new(s(-10.), s(-1.5)));
    assert_eq!(list.bounding_box().x, Interval::new(s(-1.), s(1.)));
    let world = Hittable::List(list);
    let ray = Ray::new(vec(0., 0., 0.), vec(0., 0., -1.));
    let rec = hit(&world, &ray, window()).expect("three spheres lie ahead");
    assert_eq!(rec.t, s(1.5));
    assert!(Arc::ptr_eq(&rec.material, &green));
    let rec = hit(&world, &ray, Interval::new(s(3.), Scalar::infinity())).expect("two spheres lie beyond");
    assert_eq!(rec.t, s(4.));
    assert!(Arc::ptr_eq(&rec.material, &red));
    let rec = hit(&world, &ray, Interval::new(s(6.5), Scalar::infinity())).expect("one sphere lies beyond");
    assert_eq!(rec.t, s(8.));
    assert!(Arc::ptr_eq(&rec.material, &blue));
    assert!(hit(&world, &ray, Interval::new(s(0.001), s(1.4))).is_none());
    let up = Ray::new(vec(0., 0., 0.), vec(0., 1., 0.));
    assert!(hit(&world, &up, window()).is_none());
    let mut emptied = HitList::new();
    emptied.push(ball(0., 0., -5., 1., &red));
    emptied.clear();
    assert_eq!(emptied.len(), 0);
    assert_eq!(emptied.bounding_box(), AABB::empty());
    assert!(hit(&Hittable::List(emptied), &ray, window()).is_none());
}

#[test]
fn list_keeps_the_first_of_two_equal_spheres() {
    let first = mat(1., 0., 0.);
    let second = mat(0., 1., 0.);
    let mut list = HitList::new();
    list.push(ball(0., 0., -5., 1., &first));
    list.push(ball(0., 0., -5., 1., &second));
    let ray = Ray::new(vec(0., 0., 0.), vec(0., 0., -1.));
    let rec = hit(&Hittable::List(list), &ray, window()).expect("the spheres lie ahead");
    assert!(Arc::ptr_eq(&rec.material, &first));
}

#[test]
fn tree_of_one_two_and_three_objects() {
    let m = mat(0.5, 0.5, 0.5);
    let a = ball(0., 0., -5., 1., &m);
    let b = ball(4., 0., -5., 1., &m);
    let c = ball(-4., 0., -5., 1., &m);
    let one = BvhNode::new(vec![Arc::clone(&a)]);
    assert!(Arc::ptr_eq(&one.left, &a) && Arc::ptr_eq(&one.right, &a));
    assert_eq!(one.bounding_box(), a.bounding_box());
    let two = BvhNode::new(vec![Arc::clone(&a), Arc::clone(&b)]);
    assert!(Arc::ptr_eq(&two.left, &a) && Arc::ptr_eq(&two.right, &b));
    assert_eq!(two.bounding_box().x, Interval::new(s(-1.), s(5.)));
    let three = BvhNode::new(vec![Arc::clone(&a), Arc::clone(&b), Arc::clone(&c)]);
    assert_eq!(three.bounding_box().x, Interval::new(s(-5.), s(5.)));
    match (&*three.left, &*three.right) {
        (Hittable::Bvh(l), Hittable::Bvh(r)) => {
            assert!(Arc::ptr_eq(&l.left, &c) && Arc::ptr_eq(&l.right, &c));
            assert!(Arc::ptr_eq(&r.left, &a) && Arc::ptr_eq(&r.right, &b));
            let mut both = l.bounding_box();
            both.concat(r.bounding_box());
            assert_eq!(both, three.bounding_box());
        }
        _ => panic!("the children of a tree over three objects are trees"),
    }
    let mut list = HitList::new();
    list.push(Arc::clone(&a));
    list.push(Arc::clone(&b));
    let from_list = BvhNode::from_hitlist(list);
    assert!(Arc::ptr_eq(&from_list.left, &a) && Arc::ptr_eq(&from_list.right, &b));
}

#[test]
fn tree_sorts_stably_along_the_longest_axis() {
    let m = mat(0.5, 0.5, 0.5);
    let objects: Vec<Arc<Hittable>> = vec![
        ball(0., 9., 0., 1., &m),
        ball(0., 3., 0., 1., &m),
        ball(5., 3., 0., 1., &m),
        ball(0., -2., 0., 1., &m),
    ];
    let tree = BvhNode::new(objects.clone());
    match (&*tree.left, &*tree.right) {
        (Hittable::Bvh(l), Hittable::Bvh(r)) => {
            assert!(Arc::ptr_eq(&l.left, &objects[3]));
            assert!(Arc::ptr_eq(&l.right, &objects[1]));
            assert!(Arc::ptr_eq(&r.left, &objects[2]));
            assert!(Arc::ptr_eq(&r.right, &objects[0]));
        }
        _ => panic!("the children of a tree over four objects are trees"),
    }
    assert_eq!(BvhNode::box_compare(&objects[0], &objects[1], 1), AxisOrder::Greater);
    assert_eq!(BvhNode::box_compare(&objects[1], &objects[0], 1), AxisOrder::Less);
    assert_eq!(BvhNode::box_compare(&objects[1], &objects[2], 1), AxisOrder::Equal);
    assert_eq!(BvhNode::box_compare(&objects[1], &objects[2], 0), AxisOrder::Less);
    assert_eq!(BvhNode::box_compare(&objects[1], &objects[2], 5), AxisOrder::Less);
}

#[test]
fn tree_and_list_report_the_same_nearest_hit() {
    let mut rng = Sampler::new(2025);
    let mut objects: Vec<Arc<Hittable>> = Vec::new();
    for k in 0..120 {
        let m = mat(0.5, 0.5, 0.5);
        let center = Vec3::random_bounded(&mut rng, s(-20.), s(20.));
        if k % 4 == 3 {
            let u = Vec3::random_bounded(&mut rng, s(-3.), s(3.));
            let v = Vec3::random_bounded(&mut rng, s(-3.), s(3.));
            objects.push(Arc::new(Hittable::Rect(Quad::new(center, u, v, m))));
        } else {
            let radius = Scalar::from_raw(200_000 + (rng.next_u64() % 2_000_000) as i64);
            objects.push(Arc::new(Hittable::Sphere(Sphere::new(center, radius, m))));
        }
    }
    let mut list = HitList::new();
    for o in objects.iter() {
        list.push(Arc::clone(o));
    }
    let tree = Hittable::Bvh(BvhNode::new(objects));
    let list = Hittable::List(list);
    assert_eq!(tree.bounding_box(), list.bounding_box());
    let mut hits = 0;
    for _ in 0..3000 {
        let origin = Vec3::random_bounded(&mut rng, s(-40.), s(40.));
        let target = Vec3::random_bounded(&mut rng, s(-15.), s(15.));
        let ray = Ray::new(origin, target.sub(origin));
        let by_list = hit(&list, &ray, window());
        let by_tree = hit(&tree, &ray, window());
        match (by_list, by_tree) {
            (None, None) => {}
            (Some(a), Some(b)) => {
                hits += 1;
                assert_eq!(a.t, b.t);
                assert_eq!(a.p, b.p);
                assert_eq!(a.normal, b.normal);
                assert!(Arc::ptr_eq(&a.material, &b.material));
            }
            (a, b) => panic!("list and tree disagree: {:?} against {:?}", a.map(|h| h.t), b.map(|h| h.t)),
        }
    }
    assert!(hits > 500);
}

#[test]
fn a_box_can_hide_a_grazing_hit() {
    let m = mat(0.5, 0.5, 0.5);
    let sphere = ball(0., 0., 0., 1., &m);
    let ray = Ray::new(
        Vec3::new(Scalar::from_raw(1_000_001), Scalar::from_raw(-14_908_252), Scalar::from_raw(-12_674_607)),
        Vec3::new(Scalar::from_raw(0), Scalar::from_raw(711_841), Scalar::from_raw(604_457)),
    );
    let grazed = hit(&sphere, &ray, window()).expect("rounding lets the sphere report a hit");
    assert_eq!(grazed.t, Scalar::from_raw(20_938_447));
    assert!(!sphere.bounding_box().hit(&ray, window()));
    let mut list = HitList::new();
    list.push(Arc::clone(&sphere));
    assert!(hit(&Hittable::List(list), &ray, window()).is_some());
    let tree = Hittable::Bvh(BvhNode::new(vec![sphere]));
    assert!(hit(&tree, &ray, window()).is_none());
}

#[test]
fn translate_moves_object_and_box() {
    let m = mat(0.5, 0.5, 0.5);
    let moved = Translate::new(ball(0., 0., 0., 1., &m), vec(3., 0., -5.));
    assert_eq!(moved.bounding_box(), AABB::from_points(vec(2., -1., -6.), vec(4., 1., -4.)));
    let world = Hittable::Translate(moved);
    let ray = Ray::new(vec(3., 0., 0.), vec(0., 0., -1.));
    let rec = hit(&world, &ray, window()).expect("the moved sphere lies ahead");
    assert_eq!(rec.t, s(4.));
    assert_eq!(rec.p, vec(3., 0., -4.));
    assert_eq!(rec.normal, vec(0., 0., 1.));
    let old_place = Ray::new(vec(0., 0., 5.), vec(0., 0., -1.));
    assert!(hit(&world, &old_place, window()).is_none());
}

#[test]
fn rotation_matrices() {
    let none = rotation(vec(0., 0., 0.));
    assert_eq!(rotate_vec3(&none, vec(1., 2., 3.)), vec(1., 2., 3.));
    let quarter = rotation(vec(0., 90., 0.));
    let back = transpose(&quarter);
    let to_object = rotate_vec3(&quarter, vec(1., 0., 0.));
    assert!(f(to_object.x).abs() < 1e-5 && f(to_object.y).abs() < 1e-5);
    assert!((f(to_object.z).abs() - 1.).abs() < 1e-5);
    let round_trip = rotate_vec3(&back, rotate_vec3(&quarter, vec(1., 2., 3.)));
    assert!((f(round_trip.x) - 1.).abs() < 1e-4);
    assert!((f(round_trip.y) - 2.).abs() < 1e-4);
    assert!((f(round_trip.z) - 3.).abs() < 1e-4);
    let all = rotation(vec(20., -35., 70.));
    let inv = transpose(&all);
    let p = rotate_vec3(&inv, rotate_vec3(&all, vec(-4., 5., 6.)));
    assert!((f(p.x) + 4.).abs() < 1e-4 && (f(p.y) - 5.).abs() < 1e-4 && (f(p.z) - 6.).abs() < 1e-4);
    let len = |v: Vec3| (f(v.x).powi(2) + f(v.y).powi(2) + f(v.z).powi(2)).sqrt();
    assert!((len(rotate_vec3(&all, vec(3., 4., 12.))) - 13.).abs() < 1e-4);
}

#[test]
fn rotate_turns_object_and_box() {
    let m = mat(0.5, 0.5, 0.5);
    let long_box = Arc::new(Hittable::Cube(Cube::new(vec(-4., -1., -1.), vec(4., 1., 1.), Arc::clone(&m))));
    let turned = Rotate::new(long_box, vec(0., 90., 0.));
    let b = turned.bounding_box();
    assert!((f(b.x.min) + 1.).abs() < 1e-4 && (f(b.x.max) - 1.).abs() < 1e-4);
    assert!((f(b.z.min) + 4.).abs() < 1e-4 && (f(b.z.max) - 4.).abs() < 1e-4);
    assert!((f(b.y.min) + 1.).abs() < 1e-4 && (f(b.y.max) - 1.).abs() < 1e-4);
    let world = Hittable::Rotate(turned);
    let along_z = Ray::new(vec(0., 0., 10.), vec(0., 0., -1.));
    let rec = hit(&world, &along_z, window()).expect("the long side now lies along z");
    assert!((f(rec.t) - 6.).abs() < 1e-4);
    assert!((f(rec.p.z) - 4.).abs() < 1e-4);
    assert!((f(rec.normal.z) - 1.).abs() < 1e-4);
    let along_x = Ray::new(vec(10., 0., 0.), vec(-1., 0., 0.));
    let rec = hit(&world, &along_x, window()).expect("the short side now lies along x");
    assert!((f(rec.t) - 9.).abs() < 1e-4);
    let past = Ray::new(vec(3., 0., 10.), vec(0., 0., -1.));
    assert!(hit(&world, &past, window()).is_none());
}

#[test]
fn cube_has_six_faces() {
    let m = mat(0.5, 0.5, 0.5);
    let cube = Cube::new(vec(1., 1., 1.), vec(-1., -1., -1.), Arc::clone(&m));
    assert_eq!(cube.faces.len(), 6);
    let b = cube.bounding_box();
    for n in 0..3 {
        assert_eq!(b.axis_interval(n), Interval::new(s(-1.00005), s(1.00005)));
    }
    let world = Hittable::Cube(cube);
    let dirs = [
        (vec(5., 0., 0.), vec(-1., 0., 0.), vec(1., 0., 0.)),
        (vec(-5., 0., 0.), vec(1., 0., 0.), vec(-1., 0., 0.)),
        (vec(0., 5., 0.), vec(0., -1., 0.), vec(0., 1., 0.)),
        (vec(0., -5., 0.), vec(0., 1., 0.), vec(0., -1., 0.)),
        (vec(0., 0., 5.), vec(0., 0., -1.), vec(0., 0., 1.)),
        (vec(0., 0., -5.), vec(0., 0., 1.), vec(0., 0., -1.)),
    ];
    for (origin, dir, normal) in dirs {
        let ray = Ray::new(origin.add(vec(0.3, 0.2, 0.1).mul(vec(1., 1., 1.).sub(normal.mul(normal)))), dir);
        let rec = hit(&world, &ray, window()).expect("each side has a face");
        assert_eq!(rec.t, s(4.));
        assert_eq!(rec.normal, normal);
    }
    let inside = Ray::new(vec(0., 0., 0.), vec(0., 0., 1.));
    let rec = hit(&world, &inside, window()).expect("a ray from inside leaves the cube");
    assert_eq!(rec.t, s(1.));
    let past = Ray::new(vec(5., 1.5, 0.), vec(-1., 0., 0.));
    assert!(hit(&world, &past, window()).is_none());
}

#[test]
fn dense_medium_scatters_thin_medium_rarely() {
    let m = mat(0.5, 0.5, 0.5);
    let ray = Ray::new(vec(0., 0., 5.), vec(0., 0., -1.));
    let dense = ConstantMedium::from_color(ball(0., 0., 0., 1., &m), s(1000.), vec(1., 1., 1.));
    assert_eq!(dense.neg_inv_density, s(-0.001));
    assert_eq!(dense.bounding_box(), AABB::from_points(vec(-1., -1., -1.), vec(1., 1., 1.)));
    let phase = Arc::clone(&dense.phase_function);
    let dense = Hittable::Medium(dense);
    let mut rng = Sampler::new(5);
    for _ in 0..200 {
        let before = rng;
        let rec = dense.hit(&ray, window(), &mut rng).expect("thick smoke stops every ray");
        assert_ne!(rng, before);
        assert!(s(4.).raw <= rec.t.raw && rec.t.raw <= s(4.05).raw);
        assert_eq!(rec.p, ray.at(rec.t));
        assert_eq!(rec.normal, vec(1., 0., 0.));
        assert!(rec.front_face);
        assert!(Arc::ptr_eq(&rec.material, &phase));
    }
    let thin = Hittable::Medium(ConstantMedium::from_color(ball(0., 0., 0., 1., &m), s(0.01), vec(1., 1., 1.)));
    let mut scattered = 0;
    for _ in 0..2000 {
        if thin.hit(&ray, window(), &mut rng).is_some() {
            scattered += 1;
        }
    }
    assert!(10 < scattered && scattered < 90, "scattered {}", scattered);
    let past = Ray::new(vec(0., 3., 5.), vec(0., 0., -1.));
    let before = rng;
    assert!(dense.hit(&past, window(), &mut rng).is_none());
    assert_eq!(rng, before);
    assert!(dense.hit(&ray, Interval::new(s(0.001), s(3.)), &mut rng).is_none());
}

#[test]
fn medium_scatters_where_the_draw_says() {
    let m = mat(0.5, 0.5, 0.5);
    let medium = ConstantMedium::from_color(ball(0., 0., 0., 1., &m), s(2.), vec(1., 1., 1.));
    let ray = Ray::new(vec(0., 0., 5.), vec(0., 0., -2.));
    let rec = medium
        .scattered_at(&ray, window(), s(2.), s(3.), s(1.))
        .expect("a draw of one scatters at the entry");
    assert_eq!(rec.t, s(2.));
    let draw = (-1.0f64).exp();
    let rec = medium
        .scattered_at(&ray, window(), s(2.), s(3.), s(draw))
        .expect("a free flight of one half ends inside");
    assert!((f(rec.t) - 2.25).abs() < 1e-4);
    assert!(medium.scattered_at(&ray, window(), s(2.), s(3.), s(0.001)).is_none());
    assert!(medium.scattered_at(&ray, window(), s(2.), s(3.), s(0.)).is_none());
    let rec = medium
        .scattered_at(&ray, Interval::new(s(2.5), Scalar::infinity()), s(2.), s(3.), s(1.))
        .expect("the entry is cut to the window");
    assert_eq!(rec.t, s(2.5));
    let rec = medium
        .scattered_at(&ray, window(), s(-4.), s(3.), s(1.))
        .expect("an entry before the window counts from the window's start");
    assert_eq!(rec.t, s(0.001));
    let rec = medium
        .scattered_at(&ray, Interval::new(s(-10.), Scalar::infinity()), s(-4.), s(3.), s(1.))
        .expect("an entry behind the origin counts from zero");
    assert_eq!(rec.t, s(0.));
}

#[test]
fn default_record_is_empty() {
    let rec = HitRecord::default();
    assert_eq!(rec.p, Vec3::zero());
    assert_eq!(rec.t, Scalar::zero());
    assert!(!rec.front_face);
    let mut rec = rec;
    let ray = Ray::new(vec(0., 0., 0.), vec(0., 0., -1.));
    rec.set_face_normal(&ray, &vec(0., 0., 1.));
    assert!(rec.front_face);
    assert_eq!(rec.normal, vec(0., 0., 1.));
    rec.set_face_normal(&ray, &vec(0., 0., -1.));
    assert!(!rec.front_face);
    assert_eq!(rec.normal, vec(0., 0., 1.));
}
