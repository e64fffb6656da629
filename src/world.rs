//! The Earth–Moon scenario: a fixed set of bodies driven one tick at a time.
use crate::decimal::Decimal;
use crate::error::SimulationError;
use crate::geometry::{Point, Vector};
use crate::physics::{tick, Body, Executor, Objects, PhysicalAttributes, SpaceExecutor};
use uuid::Uuid;
use vstd::prelude::*;

verus! {

/// Relies on `Uuid::new_v4` and `Uuid::as_u128`: a random identity, of
/// which nothing is promised.
#[verifier::external_body]
fn fresh_uid() -> (r: u128) {
    Uuid::new_v4().as_u128()
}

/// The Earth's mass, 5.965e24 kg.
pub open(crate) spec fn spec_earth_mass() -> Decimal {
    Decimal { mantissa: [0, 0, 0, 0, 0, 0, 0, 0, 0, 5965], len: 40, sign: 1, exponent: -15i8 }
}

/// The Moon's mass, 7.35e22 kg.
pub open(crate) spec fn spec_moon_mass() -> Decimal {
    Decimal { mantissa: [0, 0, 0, 0, 0, 0, 0, 0, 0, 7350], len: 40, sign: 1, exponent: -17i8 }
}

/// The Moon's starting distance from the Earth at perigee, 3.57e8 m.
pub open(crate) spec fn spec_perigee() -> Decimal {
    Decimal { mantissa: [0, 0, 0, 0, 0, 0, 0, 0, 0, 3570], len: 40, sign: 1, exponent: -31i8 }
}

/// The renderer's default zoom distance, 3.80e8 m.
pub open(crate) spec fn spec_scale_base() -> Decimal {
    Decimal { mantissa: [0, 0, 0, 0, 0, 0, 0, 0, 0, 3800], len: 40, sign: 1, exponent: -31i8 }
}

pub fn earth_mass() -> (r: Decimal)
    ensures
        r == spec_earth_mass(),
{
    Decimal::from_wf_parts([0, 0, 0, 0, 0, 0, 0, 0, 0, 5965], 40, 1, -15)
}

pub fn moon_mass() -> (r: Decimal)
    ensures
        r == spec_moon_mass(),
{
    Decimal::from_wf_parts([0, 0, 0, 0, 0, 0, 0, 0, 0, 7350], 40, 1, -17)
}

pub fn perigee() -> (r: Decimal)
    ensures
        r == spec_perigee(),
{
    Decimal::from_wf_parts([0, 0, 0, 0, 0, 0, 0, 0, 0, 3570], 40, 1, -31)
}

/// A body of the given mass at rest from forces, with a fresh identity.
fn new_body(center: Point, velocity: Vector, mass: Decimal) -> (r: Body)
    ensures
        r.attributes == (PhysicalAttributes { center, velocity, force: Vector::spec_zero(), mass }),
{
    Body {
        uid: fresh_uid(),
        attributes: PhysicalAttributes { center, velocity, force: Vector::zero(), mass },
    }
}

/// The Earth, as a kind of body.
pub struct Earth;

impl Earth {
    pub fn new(center: Point, velocity: Vector) -> (r: Body)
        ensures
            r.attributes == (PhysicalAttributes {
                center,
                velocity,
                force: Vector::spec_zero(),
                mass: spec_earth_mass(),
            }),
    {
        new_body(center, velocity, earth_mass())
    }
}

/// The Moon, as a kind of body.
pub struct Moon;

impl Moon {
    pub fn new(center: Point, velocity: Vector) -> (r: Body)
        ensures
            r.attributes == (PhysicalAttributes {
                center,
                velocity,
                force: Vector::spec_zero(),
                mass: spec_moon_mass(),
            }),
    {
        new_body(center, velocity, moon_mass())
    }
}

/// The Earth at the origin, at rest, and the Moon at perigee on the y axis,
/// moving at 1022 m/s along x.
pub struct EarthMoonWorld {
    executor: SpaceExecutor,
    bodies: Vec<Body>,
}

impl View for EarthMoonWorld {
    type V = Seq<Body>;

    closed spec fn view(&self) -> Seq<Body> {
        self.bodies@
    }
}

fn copy_bodies(v: &Vec<Body>) -> (r: Vec<Body>)
    ensures
        r@ == v@,
{
    let mut r: Vec<Body> = Vec::new();
    let mut i: usize = 0;
    while i < v.len()
        invariant
            i <= v@.len(),
            r@ == v@.subrange(0, i as int),
        decreases v@.len() - i,
    {
        r.push(v[i]);
        i += 1;
    }
    assert(r@ =~= v@);
    r
}

impl EarthMoonWorld {
    pub fn new() -> (r: EarthMoonWorld)
        ensures
            r@.len() == 2,
            r@[0].uid != r@[1].uid,
            r@[0].attributes == (PhysicalAttributes {
                center: Point { x: Decimal::spec_zero(), y: Decimal::spec_zero(), z: Decimal::spec_zero() },
                velocity: Vector::spec_zero(),
                force: Vector::spec_zero(),
                mass: spec_earth_mass(),
            }),
            r@[1].attributes == (PhysicalAttributes {
                center: Point { x: Decimal::spec_zero(), y: spec_perigee(), z: Decimal::spec_zero() },
                velocity: Vector {
                    x: Decimal::spec_from_u128(1022),
                    y: Decimal::spec_zero(),
                    z: Decimal::spec_zero(),
                },
                force: Vector::spec_zero(),
                mass: spec_moon_mass(),
            }),
    {
        let earth = Earth::new(
            Point { x: Decimal::zero(), y: Decimal::zero(), z: Decimal::zero() },
            Vector::zero(),
        );
        let mut moon = Moon::new(
            Point { x: Decimal::zero(), y: perigee(), z: Decimal::zero() },
            Vector { x: Decimal::from_u128(1022), y: Decimal::zero(), z: Decimal::zero() },
        );
        if moon.uid == earth.uid {
            moon.uid = if earth.uid == u128::MAX {
                0
            } else {
                earth.uid + 1
            };
        }
        let mut bodies: Vec<Body> = Vec::new();
        bodies.push(earth);
        bodies.push(moon);
        EarthMoonWorld { executor: SpaceExecutor::new(), bodies }
    }

    /// One tick of `micros` microseconds: the force pass, then the
    /// displacement pass. Where a value is not finite the whole tick is
    /// abandoned, the bodies are left as they were and `NumericInvalid` is
    /// returned.
    pub fn execute(&mut self, micros: u128) -> (r: Result<(), SimulationError>)
        ensures
            r is Ok <==> tick(old(self)@, micros) is Some,
            r is Ok ==> final(self)@ == tick(old(self)@, micros)->0,
            r is Err ==> final(self)@ == old(self)@ && r == Err::<(), SimulationError>(
                SimulationError::NumericInvalid,
            ),
    {
        let mut objects = Objects::new(copy_bodies(&self.bodies));
        self.executor.execute_force(&mut objects)?;
        self.executor.execute_displacement(&mut objects, micros)?;
        self.bodies = objects.into_inner();
        Ok(())
    }

    /// The bodies, for drawing.
    pub fn get_drawable_items(&self) -> (r: &Vec<Body>)
        ensures
            r@ == self@,
    {
        &self.bodies
    }

    /// The distance that the renderer zooms to at first, 3.80e8 m.
    pub fn get_default_scale_base(&self) -> (r: Decimal)
        ensures
            r == spec_scale_base(),
    {
        Decimal::from_wf_parts([0, 0, 0, 0, 0, 0, 0, 0, 0, 3800], 40, 1, -31)
    }
}

} // verus!
