use gravitation::decimal::Decimal;
use gravitation::error::SimulationError;
use gravitation::geometry::{Point, Vector};
use gravitation::physics::{
    gravitational_constant, half, micros_per_second, Body, Objects, PhysicalAttributes,
    Executor, PhysicalObject, SpaceExecutor,
};
use gravitation::world::{earth_mass, moon_mass, perigee, EarthMoonWorld, Earth, Moon};
use num_bigfloat::BigFloat;

fn big(d: &Decimal) -> BigFloat {
    let (m, n, s, e) = d.to_raw_parts();
    BigFloat::from_raw_parts(m, n, s, e)
}

fn f(d: &Decimal) -> f64 {
    big(d).to_f64()
}

fn dec(s: &str) -> Decimal {
    let (m, n, sign, e) = BigFloat::parse(s).unwrap().to_raw_parts().unwrap();
    Decimal::from_raw_parts(m, n, sign, e).unwrap()
}

fn point(x: &str, y: &str, z: &str) -> Point {
    Point { x: dec(x), y: dec(y), z: dec(z) }
}

fn vector(x: &str, y: &str, z: &str) -> Vector {
    Vector { x: dec(x), y: dec(y), z: dec(z) }
}

fn body(uid: u128, center: Point, velocity: Vector, mass: &str) -> Body {
    Body { uid, attributes: PhysicalAttributes::new(center, velocity, dec(mass)).unwrap() }
}

fn same_point(a: &Point, b: &Point) -> bool {
    big(&a.x) == big(&b.x) && big(&a.y) == big(&b.y) && big(&a.z) == big(&b.z)
}

fn same_vector(a: &Vector, b: &Vector) -> bool {
    big(&a.x) == big(&b.x) && big(&a.y) == big(&b.y) && big(&a.z) == big(&b.z)
}

fn close(a: f64, b: f64, rel: f64) -> bool {
    (a - b).abs() <= rel * a.abs().max(b.abs()).max(1e-300)
}

#[test]
fn constants_match_their_bigfloat_values() {
    assert!(big(&gravitational_constant()) == "6.67259e-11".parse::<BigFloat>().unwrap());
    assert_eq!(big(&gravitational_constant()).to_raw_parts(), "6.67259e-11".parse::<BigFloat>().unwrap().to_raw_parts());
    assert_eq!(big(&half()).to_raw_parts(), BigFloat::from(0.5f64).to_raw_parts());
    assert_eq!(big(&micros_per_second()).to_raw_parts(), BigFloat::from(1e6f64).to_raw_parts());
    assert_eq!(big(&Decimal::zero()).to_raw_parts(), num_bigfloat::ZERO.to_raw_parts());
    assert_eq!(big(&Decimal::one()).to_raw_parts(), num_bigfloat::ONE.to_raw_parts());
    assert_eq!(big(&Decimal::two()).to_raw_parts(), num_bigfloat::TWO.to_raw_parts());
    assert_eq!(earth_mass(), dec("5.965e24"));
    assert_eq!(moon_mass(), dec("7.35e22"));
    assert_eq!(perigee(), dec("3.57e8"));
    let world = EarthMoonWorld::new();
    assert_eq!(world.get_default_scale_base(), dec("3.80e8"));
}

#[test]
fn decimal_arithmetic() {
    let a = dec("1.5");
    let b = dec("2.25");
    assert_eq!(f(&a.add(&b).unwrap()), 3.75);
    assert_eq!(f(&a.sub(&b).unwrap()), -0.75);
    assert_eq!(f(&a.mul(&b).unwrap()), 3.375);
    assert_eq!(f(&b.div(&a).unwrap()), 1.5);
    assert_eq!(f(&a.pow(&Decimal::two()).unwrap()), 2.25);
    assert_eq!(f(&b.sqrt().unwrap()), 1.5);
    assert_eq!(f(&Decimal::from_u128(1022)), 1022.0);
    assert!(Decimal::from_u128(0).is_zero());
    assert!(!Decimal::from_u128(7).is_zero());
    assert!(Decimal::from_u128(7).is_positive());
    assert!(!dec("-3").is_positive());
    assert!(!Decimal::zero().is_positive());
}

#[test]
fn non_finite_results_are_none() {
    assert!(Decimal::one().div(&Decimal::zero()).is_none());
    assert!(dec("-4").sqrt().is_none());
    let huge = dec("9e127");
    assert!(huge.mul(&huge).is_none());
}

#[test]
fn distance_and_magnitude() {
    let a = point("1", "2", "3");
    let b = point("4", "6", "3");
    assert_eq!(f(&a.distance(&b).unwrap()), 5.0);
    assert_eq!(f(&b.distance(&a).unwrap()), 5.0);
    let v = a.vector_to(&b).unwrap();
    assert_eq!((f(&v.x), f(&v.y), f(&v.z)), (3.0, 4.0, 0.0));
    assert_eq!(f(&v.model().unwrap()), 5.0);
    let w = v.add(&vector("1", "1", "1")).unwrap();
    assert_eq!((f(&w.x), f(&w.y), f(&w.z)), (4.0, 5.0, 1.0));
    let s = v.mul(&dec("2")).unwrap();
    assert_eq!((f(&s.x), f(&s.y), f(&s.z)), (6.0, 8.0, 0.0));
    let p = a.add(&v).unwrap();
    assert_eq!((f(&p.x), f(&p.y), f(&p.z)), (4.0, 6.0, 3.0));
    assert!(Vector::zero().is_zero());
    assert!(!v.is_zero());
}

#[test]
fn unit_vector_points_towards_other() {
    let a = point("1", "2", "3");
    let b = point("4", "6", "3");
    let u = a.unit_vector_to(&b).unwrap();
    assert!(close(f(&u.x), 0.6, 1e-15));
    assert!(close(f(&u.y), 0.8, 1e-15));
    assert_eq!(f(&u.z), 0.0);
}

#[test]
fn unit_vector_between_coincident_points_fails() {
    let a = point("3.57e8", "-2", "0.125");
    assert_eq!(a.unit_vector_to(&a), Err(SimulationError::DegenerateGeometry));
    let b = point("3.57e8", "-2", "0.125");
    assert_eq!(a.unit_vector_to(&b), Err(SimulationError::DegenerateGeometry));
}

#[test]
fn mass_must_be_positive() {
    let c = point("0", "0", "0");
    assert_eq!(
        PhysicalAttributes::new(c, Vector::zero(), Decimal::zero()),
        Err(SimulationError::NumericInvalid)
    );
    assert_eq!(
        PhysicalAttributes::new(c, Vector::zero(), dec("-1")),
        Err(SimulationError::NumericInvalid)
    );
    let ok = PhysicalAttributes::new(c, Vector::zero(), dec("2")).unwrap();
    assert!(ok.force.is_zero());
    assert_eq!(ok.mass, dec("2"));
}

#[test]
fn forces_are_opposite() {
    let a = body(1, point("0", "0", "0"), Vector::zero(), "5.965e24");
    let b = body(2, point("1.5e8", "-3.2e8", "7e7"), Vector::zero(), "7.35e22");
    let mut objects = Objects::new(vec![a, b]);
    SpaceExecutor::new().execute_force(&mut objects).unwrap();
    let bodies = objects.into_inner();
    let fa = bodies[0].attributes.force;
    let fb = bodies[1].attributes.force;
    assert!(close(f(&fa.x), -f(&fb.x), 1e-12));
    assert!(close(f(&fa.y), -f(&fb.y), 1e-12));
    assert!(close(f(&fa.z), -f(&fb.z), 1e-12));
    assert!(f(&fa.x) > 0.0 && f(&fa.y) < 0.0);
}

#[test]
fn single_body_feels_no_force() {
    let mut a = body(1, point("1", "2", "3"), vector("4", "5", "6"), "10");
    a.attributes.force = vector("7", "8", "9");
    let mut objects = Objects::new(vec![a]);
    SpaceExecutor::new().execute_force(&mut objects).unwrap();
    assert!(objects.bodies[0].attributes.force.is_zero());
}

#[test]
fn bodies_sharing_an_identity_do_not_pull() {
    let a = body(9, point("0", "0", "0"), Vector::zero(), "5");
    let b = body(9, point("1", "0", "0"), Vector::zero(), "5");
    let mut objects = Objects::new(vec![a, b]);
    SpaceExecutor::new().execute_force(&mut objects).unwrap();
    assert!(objects.bodies[0].attributes.force.is_zero());
    assert!(objects.bodies[1].attributes.force.is_zero());
}

#[test]
fn coincident_bodies_do_not_break_the_force_pass() {
    let a = body(1, point("2", "3", "4"), Vector::zero(), "5");
    let b = body(2, point("2", "3", "4"), Vector::zero(), "6");
    let c = body(3, point("2", "3", "5"), Vector::zero(), "1");
    let mut objects = Objects::new(vec![a, b, c]);
    assert_eq!(SpaceExecutor::new().execute_force(&mut objects), Ok(()));
    let fa = objects.bodies[0].attributes.force;
    let fb = objects.bodies[1].attributes.force;
    // only the third body pulls: G * 5 * 1 / 1 along +z, and G * 6 along +z
    assert!(close(f(&fa.z), 6.67259e-11 * 5.0, 1e-12));
    assert!(close(f(&fb.z), 6.67259e-11 * 6.0, 1e-12));
    assert_eq!(f(&fa.x), 0.0);
    assert!(objects.bodies[0].attributes.center.unit_vector_to(&objects.bodies[1].attributes.center)
        == Err(SimulationError::DegenerateGeometry));
}

#[test]
fn zero_elapsed_time_moves_nothing() {
    let mut world = EarthMoonWorld::new();
    let before: Vec<Body> = world.get_drawable_items().clone();
    world.execute(0).unwrap();
    let after = world.get_drawable_items();
    for (b, a) in before.iter().zip(after.iter()) {
        assert!(same_point(&a.attributes.center, &b.attributes.center));
        assert!(same_vector(&a.attributes.velocity, &b.attributes.velocity));
        assert_eq!(a.uid, b.uid);
    }
    assert!(!after[1].attributes.force.is_zero());
    assert!(before[1].attributes.force.is_zero());
}

#[test]
fn identical_scenarios_end_identically() {
    let mut w1 = EarthMoonWorld::new();
    let mut w2 = EarthMoonWorld::new();
    for _ in 0..20 {
        w1.execute(30_000).unwrap();
        w2.execute(30_000).unwrap();
    }
    let a = w1.get_drawable_items();
    let b = w2.get_drawable_items();
    assert_eq!(a.len(), b.len());
    for i in 0..a.len() {
        assert_eq!(a[i].attributes, b[i].attributes);
    }
}

#[test]
fn momentum_is_conserved() {
    let mut world = EarthMoonWorld::new();
    let momentum = |bodies: &Vec<Body>| -> (f64, f64) {
        let mut px = 0.0;
        let mut py = 0.0;
        for b in bodies {
            let m = f(&b.attributes.mass);
            px += m * f(&b.attributes.velocity.x);
            py += m * f(&b.attributes.velocity.y);
        }
        (px, py)
    };
    let (px0, py0) = momentum(world.get_drawable_items());
    for _ in 0..200 {
        world.execute(1_000_000).unwrap();
    }
    let (px1, py1) = momentum(world.get_drawable_items());
    // the Moon alone carries 7.35e22 * 1022 kg·m/s
    assert!(close(px0, px1, 1e-12));
    assert!((py1 - py0).abs() <= 1e-12 * px0.abs());
}

#[test]
fn earth_moon_first_tick() {
    let mut world = EarthMoonWorld::new();
    world.execute(30_000).unwrap();
    let bodies = world.get_drawable_items();
    let moon = &bodies[1].attributes;
    let g = 6.67259e-11 * 5.965e24 * 7.35e22 / (3.57e8f64 * 3.57e8);
    assert!(close(g, 2.295e20, 1e-3));
    assert!(close(f(&moon.force.y), -g, 1e-12));
    assert_eq!(f(&moon.force.x), 0.0);
    assert!(close(f(&moon.center.x), 30.66, 1e-12));
    let dy = f(&moon.center.y) - 3.57e8;
    assert!(dy < 0.0 && dy.abs() < 1e-3);
    let earth = &bodies[0].attributes;
    assert!(close(f(&earth.force.y), g, 1e-12));
}

#[test]
fn earth_and_moon_kinds() {
    let e = Earth::new(point("0", "0", "0"), Vector::zero());
    let m = Moon::new(point("0", "1", "0"), Vector::zero());
    assert_eq!(e.attributes.mass, earth_mass());
    assert_eq!(m.attributes.mass, moon_mass());
    assert_ne!(e.get_uid(), m.get_uid());
    assert_eq!(*m.get_physical_attributes(), m.attributes);
}

#[test]
fn failing_tick_leaves_world_unchanged() {
    let a = Body {
        uid: 1,
        attributes: PhysicalAttributes {
            center: point("0", "0", "0"),
            velocity: Vector::zero(),
            force: Vector::zero(),
            mass: Decimal::zero(),
        },
    };
    let b = body(2, point("1", "0", "0"), Vector::zero(), "1");
    let mut objects = Objects::new(vec![a, b]);
    let mut exec = SpaceExecutor::new();
    exec.execute_force(&mut objects).unwrap();
    let before = objects.bodies.clone();
    assert_eq!(exec.execute_displacement(&mut objects, 1000), Err(SimulationError::NumericInvalid));
    assert_eq!(objects.bodies, before);
}

#[test]
fn displacement_follows_force() {
    let mut a = body(1, point("0", "0", "0"), vector("1", "0", "0"), "2");
    a.attributes.force = vector("4", "0", "0");
    let mut objects = Objects::new(vec![a]);
    SpaceExecutor::new().execute_displacement(&mut objects, 2_000_000).unwrap();
    let r = &objects.bodies[0].attributes;
    // a = 2, t = 2: x = 1*2 + 2*4*0.5 = 6, v = 1 + 2*2 = 5
    assert_eq!(f(&r.center.x), 6.0);
    assert_eq!(f(&r.velocity.x), 5.0);
    assert_eq!(f(&r.force.x), 4.0);
}

#[test]
fn integers_keep_their_digits() {
    for v in [0u128, 7, 1022, 10_000, 123_456_789, 10u128.pow(38), u128::MAX] {
        let (m, n, s, e) = Decimal::from_u128(v).to_raw_parts();
        let mut expected = [0i16; 10];
        let mut rest = v;
        for part in expected.iter_mut() {
            *part = (rest % 10_000) as i16;
            rest /= 10_000;
        }
        assert_eq!(m, expected);
        assert_eq!(n as usize, if v == 0 { 0 } else { v.to_string().len() });
        assert_eq!((s, e), (1, 0));
    }
    assert_eq!(Decimal::from_u128(1022).to_raw_parts(), BigFloat::from(1022).to_raw_parts().unwrap());
}

#[test]
fn raw_parts_are_checked() {
    let (m, n, s, e) = dec("6.67259e-11").to_raw_parts();
    assert_eq!(Decimal::from_raw_parts(m, n, s, e).unwrap(), dec("6.67259e-11"));
    assert!(Decimal::from_raw_parts(m, n - 1, s, e).is_none());
    assert!(Decimal::from_raw_parts(m, n, 0, e).is_none());
    let mut wide = m;
    wide[0] = 10_000;
    assert!(Decimal::from_raw_parts(wide, n, s, e).is_none());
    let mut negative = m;
    negative[3] = -1;
    assert!(Decimal::from_raw_parts(negative, n, s, e).is_none());
    assert!(Decimal::from_raw_parts([0; 10], -100, 1, 100).is_none());
    assert_eq!(Decimal::from_raw_parts([0; 10], 0, -1, 5).unwrap().to_raw_parts(), ([0; 10], 0, -1, 5));
}

#[test]
fn zero_facts_hold() {
    let x = dec("3.57e8");
    assert_eq!(x.sub(&x).unwrap(), Decimal::zero());
    assert_eq!(x.mul(&Decimal::zero()).unwrap(), Decimal::zero());
    assert_eq!(Decimal::zero().mul(&x).unwrap(), Decimal::zero());
    assert_eq!(Decimal::zero().add(&Decimal::zero()).unwrap(), Decimal::zero());
    assert_eq!(Decimal::zero().pow(&Decimal::two()).unwrap(), Decimal::zero());
    assert_eq!(Decimal::zero().sqrt().unwrap(), Decimal::zero());
    let p = point("1.5", "-2", "7e9");
    assert_eq!(p.distance(&p).unwrap(), Decimal::zero());
}

#[test]
fn two_coincident_bodies_feel_no_force() {
    let a = body(1, point("2", "3", "4"), Vector::zero(), "5");
    let b = body(2, point("2", "3", "4"), Vector::zero(), "6");
    let mut objects = Objects::new(vec![a, b]);
    assert_eq!(SpaceExecutor::new().execute_force(&mut objects), Ok(()));
    assert!(objects.bodies[0].attributes.force.is_zero());
    assert!(objects.bodies[1].attributes.force.is_zero());
}

#[test]
fn negative_mass_fails_the_tick() {
    let mut a = body(1, point("0", "0", "0"), Vector::zero(), "1");
    a.attributes.mass = dec("-3");
    let b = body(2, point("1", "0", "0"), Vector::zero(), "1");
    let mut objects = Objects::new(vec![a, b]);
    let mut exec = SpaceExecutor::new();
    exec.execute_force(&mut objects).unwrap();
    let before = objects.bodies.clone();
    assert_eq!(exec.execute_displacement(&mut objects, 1000), Err(SimulationError::NumericInvalid));
    assert_eq!(objects.bodies, before);
}

#[test]
fn world_bodies_have_distinct_identities() {
    let world = EarthMoonWorld::new();
    let bodies = world.get_drawable_items();
    assert_ne!(bodies[0].uid, bodies[1].uid);
}
