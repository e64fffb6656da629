//! Points and vectors in three dimensions, over `Decimal` coordinates.
use crate::decimal::{add_of, div_of, mul_of, pow_of, sqrt_of, sub_of, Decimal};
use crate::error::SimulationError;
use vstd::prelude::*;

verus! {

/// A position in space, in metres.
#[derive(Clone, Copy, Debug, PartialEq)]
pub struct Point {
    pub x: Decimal,
    pub y: Decimal,
    pub z: Decimal,
}

/// A displacement, a velocity or a force.
#[derive(Clone, Copy, Debug, PartialEq)]
pub struct Vector {
    pub x: Decimal,
    pub y: Decimal,
    pub z: Decimal,
}

/// The vector of three coordinates, where all three are finite.
pub open spec fn vector_of(x: Option<Decimal>, y: Option<Decimal>, z: Option<Decimal>) -> Option<Vector> {
    match (x, y, z) {
        (Some(x), Some(y), Some(z)) => Some(Vector { x, y, z }),
        _ => None,
    }
}

/// The point of three coordinates, where all three are finite.
pub open spec fn point_of(x: Option<Decimal>, y: Option<Decimal>, z: Option<Decimal>) -> Option<Point> {
    match (x, y, z) {
        (Some(x), Some(y), Some(z)) => Some(Point { x, y, z }),
        _ => None,
    }
}

/// `sqrt(x² + y² + z²)`, summed left to right.
pub open spec fn norm(x: Decimal, y: Decimal, z: Decimal) -> Option<Decimal> {
    let two = Decimal::spec_two();
    match (pow_of(x, two), pow_of(y, two), pow_of(z, two)) {
        (Some(x2), Some(y2), Some(z2)) => match add_of(x2, y2) {
            Some(s) => match add_of(s, z2) {
                Some(t) => sqrt_of(t),
                None => None,
            },
            None => None,
        },
        _ => None,
    }
}

impl Vector {
    pub open spec fn spec_zero() -> Vector {
        Vector { x: Decimal::spec_zero(), y: Decimal::spec_zero(), z: Decimal::spec_zero() }
    }

    /// All three components are zero.
    pub open spec fn spec_is_zero(self) -> bool {
        self.x.spec_is_zero() && self.y.spec_is_zero() && self.z.spec_is_zero()
    }

    pub open spec fn spec_add(self, other: Vector) -> Option<Vector> {
        vector_of(add_of(self.x, other.x), add_of(self.y, other.y), add_of(self.z, other.z))
    }

    pub open spec fn spec_mul(self, s: Decimal) -> Option<Vector> {
        vector_of(mul_of(self.x, s), mul_of(self.y, s), mul_of(self.z, s))
    }

    pub open spec fn spec_model(self) -> Option<Decimal> {
        norm(self.x, self.y, self.z)
    }

    /// `v * (1 / |v|)`.
    pub open spec fn spec_direction(self) -> Option<Vector> {
        match self.spec_model() {
            Some(m) => match div_of(Decimal::spec_one(), m) {
                Some(k) => self.spec_mul(k),
                None => None,
            },
            None => None,
        }
    }

    /// The zero vector.
    pub fn zero() -> (r: Vector)
        ensures
            r == Vector::spec_zero(),
    {
        Vector { x: Decimal::zero(), y: Decimal::zero(), z: Decimal::zero() }
    }

    /// Whether all three components are zero.
    pub fn is_zero(&self) -> (r: bool)
        ensures
            r == self.spec_is_zero(),
    {
        self.x.is_zero() && self.y.is_zero() && self.z.is_zero()
    }

    /// The component-wise sum; `None` where a component is not finite.
    pub fn add(&self, other: &Vector) -> (r: Option<Vector>)
        ensures
            r == self.spec_add(*other),
    {
        let x = self.x.add(&other.x);
        let y = self.y.add(&other.y);
        let z = self.z.add(&other.z);
        vector_from(x, y, z)
    }

    /// Every component times `s`; `None` where a component is not finite.
    pub fn mul(&self, s: &Decimal) -> (r: Option<Vector>)
        ensures
            r == self.spec_mul(*s),
    {
        let x = self.x.mul(s);
        let y = self.y.mul(s);
        let z = self.z.mul(s);
        vector_from(x, y, z)
    }

    /// The magnitude `sqrt(x² + y² + z²)`.
    pub fn model(&self) -> (r: Option<Decimal>)
        ensures
            r == self.spec_model(),
    {
        magnitude(&self.x, &self.y, &self.z)
    }

    /// The vector scaled by the inverse of its magnitude.
    pub(crate) fn direction(&self) -> (r: Option<Vector>)
        ensures
            r == self.spec_direction(),
    {
        match self.model() {
            Some(m) => match Decimal::one().div(&m) {
                Some(k) => self.mul(&k),
                None => None,
            },
            None => None,
        }
    }
}

impl Point {
    pub open spec fn spec_add(self, v: Vector) -> Option<Point> {
        point_of(add_of(self.x, v.x), add_of(self.y, v.y), add_of(self.z, v.z))
    }

    pub open spec fn spec_distance(self, other: Point) -> Option<Decimal> {
        match (sub_of(self.x, other.x), sub_of(self.y, other.y), sub_of(self.z, other.z)) {
            (Some(dx), Some(dy), Some(dz)) => norm(dx, dy, dz),
            _ => None,
        }
    }

    pub open spec fn spec_vector_to(self, other: Point) -> Option<Vector> {
        vector_of(sub_of(other.x, self.x), sub_of(other.y, self.y), sub_of(other.z, self.z))
    }

    pub open spec fn spec_unit_vector_to(self, other: Point) -> Result<Vector, SimulationError> {
        match self.spec_vector_to(other) {
            Some(v) => if v.spec_is_zero() {
                Err(SimulationError::DegenerateGeometry)
            } else {
                match v.spec_direction() {
                    Some(u) => Ok(u),
                    None => Err(SimulationError::NumericInvalid),
                }
            },
            None => Err(SimulationError::NumericInvalid),
        }
    }

    /// The point moved by `v`; `None` where a coordinate is not finite.
    pub fn add(&self, v: &Vector) -> (r: Option<Point>)
        ensures
            r == self.spec_add(*v),
    {
        let x = self.x.add(&v.x);
        let y = self.y.add(&v.y);
        let z = self.z.add(&v.z);
        match (x, y, z) {
            (Some(x), Some(y), Some(z)) => Some(Point { x, y, z }),
            _ => None,
        }
    }

    /// The distance `sqrt(Σ (selfᵢ − otherᵢ)²)`.
    pub fn distance(&self, other: &Point) -> (r: Option<Decimal>)
        ensures
            r == self.spec_distance(*other),
            *self == *other ==> r == Some(Decimal::spec_zero()),
    {
        let dx = self.x.sub(&other.x);
        let dy = self.y.sub(&other.y);
        let dz = self.z.sub(&other.z);
        match (dx, dy, dz) {
            (Some(dx), Some(dy), Some(dz)) => magnitude(&dx, &dy, &dz),
            _ => None,
        }
    }

    /// The vector from this point to `other`.
    pub fn vector_to(&self, other: &Point) -> (r: Option<Vector>)
        ensures
            r == self.spec_vector_to(*other),
    {
        let x = other.x.sub(&self.x);
        let y = other.y.sub(&self.y);
        let z = other.z.sub(&self.z);
        vector_from(x, y, z)
    }

    /// The unit vector from this point towards `other`. Fails with
    /// `DegenerateGeometry` where the two points coincide, since no direction
    /// leads from a point to itself.
    pub fn unit_vector_to(&self, other: &Point) -> (r: Result<Vector, SimulationError>)
        ensures
            r == self.spec_unit_vector_to(*other),
            r == Err::<Vector, SimulationError>(SimulationError::DegenerateGeometry) <==> (
            self.spec_vector_to(*other) matches Some(v) && v.spec_is_zero()),
    {
        match self.vector_to(other) {
            Some(v) => if v.is_zero() {
                Err(SimulationError::DegenerateGeometry)
            } else {
                match v.direction() {
                    Some(u) => Ok(u),
                    None => Err(SimulationError::NumericInvalid),
                }
            },
            None => Err(SimulationError::NumericInvalid),
        }
    }
}

fn vector_from(x: Option<Decimal>, y: Option<Decimal>, z: Option<Decimal>) -> (r: Option<Vector>)
    ensures
        r == vector_of(x, y, z),
{
    match (x, y, z) {
        (Some(x), Some(y), Some(z)) => Some(Vector { x, y, z }),
        _ => None,
    }
}

fn magnitude(x: &Decimal, y: &Decimal, z: &Decimal) -> (r: Option<Decimal>)
    ensures
        r == norm(*x, *y, *z),
        x.spec_is_zero() && y.spec_is_zero() && z.spec_is_zero() ==> r == Some(Decimal::spec_zero()),
{
    let two = Decimal::two();
    match (x.pow(&two), y.pow(&two), z.pow(&two)) {
        (Some(x2), Some(y2), Some(z2)) => match x2.add(&y2) {
            Some(s) => match s.add(&z2) {
                Some(t) => t.sqrt(),
                None => None,
            },
            None => None,
        },
        _ => None,
    }
}

} // verus!
