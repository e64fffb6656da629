//! Bodies, the step-scoped collection over them, and the executor that
//! computes gravitational forces and integrates motion.
use crate::decimal::{div_of, mul_of, pow_of, Decimal};
use crate::error::SimulationError;
use crate::geometry::{Point, Vector};
use vstd::prelude::*;

verus! {

/// The gravitational constant G = 6.67259e-11 m³/(kg·s²).
pub open(crate) spec fn spec_gravitational_constant() -> Decimal {
    Decimal { mantissa: [0, 0, 0, 0, 0, 0, 0, 0, 5900, 6672], len: 40, sign: 1, exponent: -50i8 }
}

/// One half, as `BigFloat::from(0.5)` holds it.
pub open(crate) spec fn spec_half() -> Decimal {
    Decimal { mantissa: [0, 0, 0, 0, 0, 0, 0, 0, 0, 5000], len: 40, sign: 1, exponent: -40i8 }
}

/// Microseconds in a second, as `BigFloat::from(1e6)` holds it.
pub open(crate) spec fn spec_micros_per_second() -> Decimal {
    Decimal { mantissa: [0, 0, 0, 0, 0, 0, 0, 0, 0, 1000], len: 40, sign: 1, exponent: -33i8 }
}

/// G, in the form that `num_bigfloat` parses "6.67259e-11" to.
pub fn gravitational_constant() -> (r: Decimal)
    ensures
        r == spec_gravitational_constant(),
{
    Decimal::from_wf_parts([0, 0, 0, 0, 0, 0, 0, 0, 5900, 6672], 40, 1, -50)
}

/// One half.
pub fn half() -> (r: Decimal)
    ensures
        r == spec_half(),
{
    Decimal::from_wf_parts([0, 0, 0, 0, 0, 0, 0, 0, 0, 5000], 40, 1, -40)
}

/// Microseconds in a second.
pub fn micros_per_second() -> (r: Decimal)
    ensures
        r == spec_micros_per_second(),
{
    Decimal::from_wf_parts([0, 0, 0, 0, 0, 0, 0, 0, 0, 1000], 40, 1, -33)
}

/// The physical state of a body.
#[derive(Clone, Copy, Debug, PartialEq)]
pub struct PhysicalAttributes {
    /// Centre of mass, in metres.
    pub center: Point,
    /// Velocity, in metres per second.
    pub velocity: Vector,
    /// Net force of the last force pass, in newtons.
    pub force: Vector,
    /// Mass, in kilograms.
    pub mass: Decimal,
}

impl PhysicalAttributes {
    /// Well-formed: the mass is positive.
    pub open spec fn valid(self) -> bool {
        self.mass.spec_is_positive()
    }

    /// Attributes with no force yet; `NumericInvalid` where the mass is not
    /// positive.
    pub fn new(center: Point, velocity: Vector, mass: Decimal) -> (r: Result<PhysicalAttributes, SimulationError>)
        ensures
            mass.spec_is_positive() ==> r == Ok::<PhysicalAttributes, SimulationError>(
                PhysicalAttributes { center, velocity, force: Vector::spec_zero(), mass },
            ),
            !mass.spec_is_positive() ==> r == Err::<PhysicalAttributes, SimulationError>(
                SimulationError::NumericInvalid,
            ),
    {
        if mass.is_positive() {
            Ok(PhysicalAttributes { center, velocity, force: Vector::zero(), mass })
        } else {
            Err(SimulationError::NumericInvalid)
        }
    }
}

/// A body: a stable identity and its physical state.
#[derive(Clone, Copy, Debug, PartialEq)]
pub struct Body {
    pub uid: u128,
    pub attributes: PhysicalAttributes,
}

/// Something the executor can move: a stable identity, and read and write
/// access to its physical state.
pub trait PhysicalObject {
    spec fn spec_uid(&self) -> u128;

    spec fn spec_attributes(&self) -> PhysicalAttributes;

    /// The identity, the same for the object's whole life.
    fn get_uid(&self) -> (r: u128)
        ensures
            r == self.spec_uid(),
    ;

    fn get_physical_attributes(&self) -> (r: &PhysicalAttributes)
        ensures
            *r == self.spec_attributes(),
    ;

    /// Replaces the physical state, keeping the identity.
    fn set_physical_attributes(&mut self, attributes: PhysicalAttributes)
        ensures
            final(self).spec_uid() == old(self).spec_uid(),
            final(self).spec_attributes() == attributes,
    ;
}

impl PhysicalObject for Body {
    open spec fn spec_uid(&self) -> u128 {
        self.uid
    }

    open spec fn spec_attributes(&self) -> PhysicalAttributes {
        self.attributes
    }

    fn get_uid(&self) -> (r: u128) {
        self.uid
    }

    fn get_physical_attributes(&self) -> (r: &PhysicalAttributes) {
        &self.attributes
    }

    fn set_physical_attributes(&mut self, attributes: PhysicalAttributes) {
        self.attributes = attributes;
    }
}

/// The ordered bodies that one tick works on. It is built afresh for each
/// tick and handed back when the tick is over.
pub struct Objects {
    pub bodies: Vec<Body>,
}

impl View for Objects {
    type V = Seq<Body>;

    open spec fn view(&self) -> Seq<Body> {
        self.bodies@
    }
}

impl Objects {
    pub fn new(bodies: Vec<Body>) -> (r: Objects)
        ensures
            r@ == bodies@,
    {
        Objects { bodies }
    }

    pub fn into_inner(self) -> (r: Vec<Body>)
        ensures
            r@ == self@,
    {
        self.bodies
    }
}

/// `G · mₐ · m_b / r²`, multiplied left to right.
pub open spec fn gravity_magnitude(ma: Decimal, mb: Decimal, r: Decimal) -> Option<Decimal> {
    match mul_of(spec_gravitational_constant(), ma) {
        Some(p) => match mul_of(p, mb) {
            Some(q) => match pow_of(r, Decimal::spec_two()) {
                Some(r2) => div_of(q, r2),
                None => None,
            },
            None => None,
        },
        None => None,
    }
}

/// The running sum `acc` after the pull of body `b` on body `a`. A pair at
/// distance zero adds nothing.
pub open spec fn pull(acc: Vector, a: PhysicalAttributes, b: PhysicalAttributes) -> Option<Vector> {
    match a.center.spec_distance(b.center) {
        Some(r) => if r.spec_is_zero() {
            Some(acc)
        } else {
            match gravity_magnitude(a.mass, b.mass, r) {
                Some(size) => match a.center.spec_vector_to(b.center) {
                    Some(v) => match v.spec_direction() {
                        Some(u) => match u.spec_mul(size) {
                            Some(f) => acc.spec_add(f),
                            None => None,
                        },
                        None => None,
                    },
                    None => None,
                },
                None => None,
            }
        },
        None => None,
    }
}

/// The net force on body `i` from the first `k` bodies, summed in order,
/// leaving out every body with the identity of body `i`.
pub open spec fn net_force_prefix(s: Seq<Body>, i: int, k: nat) -> Option<Vector>
    decreases k,
{
    if k == 0 {
        Some(Vector::spec_zero())
    } else {
        match net_force_prefix(s, i, (k - 1) as nat) {
            Some(acc) => if s[k - 1].uid == s[i].uid {
                Some(acc)
            } else {
                pull(acc, s[i].attributes, s[k - 1].attributes)
            },
            None => None,
        }
    }
}

/// All the bodies stand at one point.
pub open spec fn all_coincide(s: Seq<Body>) -> bool {
    forall|i: int, j: int|
        0 <= i < s.len() && 0 <= j < s.len() ==> #[trigger] s[i].attributes.center == #[trigger] s[j].attributes.center
}

/// The net force on body `i` from all the others.
pub open spec fn net_force(s: Seq<Body>, i: int) -> Option<Vector> {
    net_force_prefix(s, i, s.len())
}

pub open spec fn with_force(b: Body, f: Vector) -> Body {
    Body { attributes: PhysicalAttributes { force: f, ..b.attributes }, ..b }
}

/// The bodies after the force pass, all forces taken from the one snapshot
/// `s`; `None` where a force is not finite.
pub open spec fn force_pass(s: Seq<Body>) -> Option<Seq<Body>> {
    if forall|i: int| 0 <= i < s.len() ==> net_force(s, i) is Some {
        Some(Seq::new(s.len(), |i: int| with_force(s[i], net_force(s, i)->0)))
    } else {
        None
    }
}

/// Elapsed time in seconds from microseconds.
pub open spec fn seconds_of(micros: u128) -> Option<Decimal> {
    div_of(Decimal::spec_from_u128(micros), spec_micros_per_second())
}

/// One body's state after `t` seconds under its committed force:
/// `a = F / m`, `center += v·t + a·t²·½`, `velocity += a·t`. A body whose
/// mass is not positive has no such state.
pub open spec fn displaced(p: PhysicalAttributes, t: Decimal) -> Option<PhysicalAttributes> {
    if !p.mass.spec_is_positive() {
        None
    } else {
        displaced_by(p, t)
    }
}

/// The integration step of `displaced`, for any mass.
pub open spec fn displaced_by(p: PhysicalAttributes, t: Decimal) -> Option<PhysicalAttributes> {
    match div_of(Decimal::spec_one(), p.mass) {
        Some(inv) => match p.force.spec_mul(inv) {
            Some(acc) => match pow_of(t, Decimal::spec_two()) {
                Some(t2) => match (p.velocity.spec_mul(t), acc.spec_mul(t2)) {
                    (Some(vt), Some(at2)) => match at2.spec_mul(spec_half()) {
                        Some(h) => match vt.spec_add(h) {
                            Some(d) => match (p.center.spec_add(d), acc.spec_mul(t)) {
                                (Some(c), Some(dv)) => match p.velocity.spec_add(dv) {
                                    Some(v) => Some(PhysicalAttributes { center: c, velocity: v, ..p }),
                                    None => None,
                                },
                                _ => None,
                            },
                            None => None,
                        },
                        None => None,
                    },
                    _ => None,
                },
                None => None,
            },
            None => None,
        },
        None => None,
    }
}

/// The bodies after the displacement pass; `None` where a value is not
/// finite.
pub open spec fn displacement_pass(s: Seq<Body>, micros: u128) -> Option<Seq<Body>> {
    match seconds_of(micros) {
        Some(t) => if forall|i: int| 0 <= i < s.len() ==> displaced(s[i].attributes, t) is Some {
            Some(Seq::new(s.len(), |i: int| Body { attributes: displaced(s[i].attributes, t)->0, ..s[i] }))
        } else {
            None
        },
        None => None,
    }
}

/// One tick: the force pass, then the displacement pass.
pub open spec fn tick(s: Seq<Body>, micros: u128) -> Option<Seq<Body>> {
    match force_pass(s) {
        Some(f) => displacement_pass(f, micros),
        None => None,
    }
}

/// `n` ticks of `micros` microseconds each.
pub open spec fn run(s: Seq<Body>, micros: u128, n: nat) -> Option<Seq<Body>>
    decreases n,
{
    if n == 0 {
        Some(s)
    } else {
        match run(s, micros, (n - 1) as nat) {
            Some(p) => tick(p, micros),
            None => None,
        }
    }
}


/// Once the running sum fails, it stays failed.
proof fn lemma_prefix_failure_stays(s: Seq<Body>, i: int, k: nat, m: nat)
    requires
        k <= m,
        net_force_prefix(s, i, k) is None,
    ensures
        net_force_prefix(s, i, m) is None,
    decreases m - k,
{
    if k < m {
        lemma_prefix_failure_stays(s, i, k, (m - 1) as nat);
    }
}

/// Computes, for a snapshot of bodies, the net gravitational force on each
/// and integrates motion from it.
#[derive(Clone, Copy, Debug, Default)]
pub struct SpaceExecutor {}

impl SpaceExecutor {
    pub fn new() -> (r: SpaceExecutor) {
        SpaceExecutor {}
    }

    /// The running sum `acc` after the pull of `b` on `a`.
    fn pull_on(acc: &Vector, a: &PhysicalAttributes, b: &PhysicalAttributes) -> (r: Option<Vector>)
        ensures
            r == pull(*acc, *a, *b),
            a.center == b.center ==> r == Some(*acc),
    {
        let r = match a.center.distance(&b.center) {
            Some(r) => r,
            None => return None,
        };
        if r.is_zero() {
            return Some(*acc);
        }
        let g = gravitational_constant();
        let p = match g.mul(&a.mass) {
            Some(p) => p,
            None => return None,
        };
        let q = match p.mul(&b.mass) {
            Some(q) => q,
            None => return None,
        };
        let r2 = match r.pow(&Decimal::two()) {
            Some(r2) => r2,
            None => return None,
        };
        let size = match q.div(&r2) {
            Some(size) => size,
            None => return None,
        };
        let v = match a.center.vector_to(&b.center) {
            Some(v) => v,
            None => return None,
        };
        let u = match v.direction() {
            Some(u) => u,
            None => return None,
        };
        match u.mul(&size) {
            Some(f) => acc.add(&f),
            None => None,
        }
    }

    /// The net force on body `i` from every body of another identity.
    fn net_force_on(bodies: &Vec<Body>, i: usize) -> (r: Option<Vector>)
        requires
            i < bodies@.len(),
        ensures
            r == net_force(bodies@, i as int),
            all_coincide(bodies@) ==> r == Some(Vector::spec_zero()),
    {
        let n = bodies.len();
        let target = bodies[i];
        let mut acc = Vector::zero();
        let mut k: usize = 0;
        while k < n
            invariant
                n == bodies@.len(),
                k <= n,
                i < n,
                target == bodies@[i as int],
                net_force_prefix(bodies@, i as int, k as nat) == Some(acc),
                all_coincide(bodies@) ==> acc == Vector::spec_zero(),
            decreases n - k,
        {
            let other = bodies[k];
            if other.uid != target.uid {
                match SpaceExecutor::pull_on(&acc, &target.attributes, &other.attributes) {
                    Some(next) => {
                        acc = next;
                    },
                    None => {
                        proof {
                            lemma_prefix_failure_stays(bodies@, i as int, (k + 1) as nat, n as nat);
                        }
                        return None;
                    },
                }
            }
            k += 1;
        }
        Some(acc)
    }

    /// One body's state after `t` seconds under its committed force.
    fn displace(p: &PhysicalAttributes, t: &Decimal) -> (r: Option<PhysicalAttributes>)
        ensures
            r == displaced(*p, *t),
    {
        if !p.mass.is_positive() {
            return None;
        }
        let inv = match Decimal::one().div(&p.mass) {
            Some(inv) => inv,
            None => return None,
        };
        let acc = match p.force.mul(&inv) {
            Some(acc) => acc,
            None => return None,
        };
        let t2 = match t.pow(&Decimal::two()) {
            Some(t2) => t2,
            None => return None,
        };
        let vt = p.velocity.mul(t);
        let at2 = acc.mul(&t2);
        let (vt, at2) = match (vt, at2) {
            (Some(vt), Some(at2)) => (vt, at2),
            _ => return None,
        };
        let h = match at2.mul(&half()) {
            Some(h) => h,
            None => return None,
        };
        let d = match vt.add(&h) {
            Some(d) => d,
            None => return None,
        };
        let c = p.center.add(&d);
        let dv = acc.mul(t);
        let (c, dv) = match (c, dv) {
            (Some(c), Some(dv)) => (c, dv),
            _ => return None,
        };
        match p.velocity.add(&dv) {
            Some(v) => Some(PhysicalAttributes { center: c, velocity: v, ..*p }),
            None => None,
        }
    }

    /// The elapsed time in seconds.
    fn seconds(micros: u128) -> (r: Option<Decimal>)
        ensures
            r == seconds_of(micros),
    {
        Decimal::from_u128(micros).div(&micros_per_second())
    }

}

/// Runs the two passes of a tick over a collection of bodies.
pub trait Executor {
    /// The force pass: every body's net force is computed from the one
    /// snapshot of positions, and only then are all forces written. A pair
    /// of bodies at distance zero adds nothing. Where a force is not finite,
    /// nothing is written and `NumericInvalid` is returned.
    fn execute_force(&mut self, objects: &mut Objects) -> (r: Result<(), SimulationError>)
        ensures
            r is Ok <==> force_pass(old(objects)@) is Some,
            all_coincide(old(objects)@) ==> r is Ok && forall|k: int|
                0 <= k < final(objects)@.len() ==> (#[trigger] final(objects)@[k]).attributes.force == Vector::spec_zero(),
            r is Ok ==> final(objects)@ == force_pass(old(objects)@)->0,
            r is Err ==> final(objects)@ == old(objects)@ && r == Err::<(), SimulationError>(
                SimulationError::NumericInvalid,
            ),
    ;

    /// The displacement pass: each body moves for `micros` microseconds
    /// under the force that the force pass left on it, and its velocity
    /// changes with it. Where a mass is not positive or a value is not
    /// finite, nothing is written and `NumericInvalid` is returned.
    fn execute_displacement(&mut self, objects: &mut Objects, micros: u128) -> (r: Result<(), SimulationError>)
        ensures
            r is Ok <==> displacement_pass(old(objects)@, micros) is Some,
            (exists|k: int| 0 <= k < old(objects)@.len() && !old(objects)@[k].attributes.mass.spec_is_positive())
                ==> r is Err,
            r is Ok ==> final(objects)@ == displacement_pass(old(objects)@, micros)->0,
            r is Err ==> final(objects)@ == old(objects)@ && r == Err::<(), SimulationError>(
                SimulationError::NumericInvalid,
            ),
    ;
}

impl Executor for SpaceExecutor {
    fn execute_force(&mut self, objects: &mut Objects) -> (r: Result<(), SimulationError>)
    {
        let n = objects.bodies.len();
        let ghost snapshot = objects@;
        let mut forces: Vec<Vector> = Vec::new();
        let mut i: usize = 0;
        while i < n
            invariant
                objects@ == snapshot,
                n == snapshot.len(),
                i <= n,
                forces@.len() == i,
                forall|k: int| 0 <= k < i ==> net_force(snapshot, k) == Some(forces@[k]),
                all_coincide(snapshot) ==> forall|k: int| 0 <= k < i ==> forces@[k] == Vector::spec_zero(),
            decreases n - i,
        {
            match SpaceExecutor::net_force_on(&objects.bodies, i) {
                Some(f) => forces.push(f),
                None => return Err(SimulationError::NumericInvalid),
            }
            i += 1;
        }
        let mut j: usize = 0;
        while j < n
            invariant
                n == snapshot.len(),
                j <= n,
                forces@.len() == n,
                objects@.len() == n,
                forall|k: int| 0 <= k < n ==> net_force(snapshot, k) == Some(forces@[k]),
                all_coincide(snapshot) ==> forall|k: int| 0 <= k < n ==> forces@[k] == Vector::spec_zero(),
                forall|k: int| 0 <= k < j ==> objects@[k] == with_force(snapshot[k], forces@[k]),
                forall|k: int| j <= k < n ==> objects@[k] == snapshot[k],
            decreases n - j,
        {
            let mut b = objects.bodies[j];
            let mut a = *b.get_physical_attributes();
            a.force = forces[j];
            b.set_physical_attributes(a);
            objects.bodies.set(j, b);
            j += 1;
        }
        assert(objects@ =~= force_pass(snapshot)->0);
        Ok(())
    }

    fn execute_displacement(&mut self, objects: &mut Objects, micros: u128) -> (r: Result<(), SimulationError>)
    {
        let t = match SpaceExecutor::seconds(micros) {
            Some(t) => t,
            None => return Err(SimulationError::NumericInvalid),
        };
        let n = objects.bodies.len();
        let ghost snapshot = objects@;
        let mut moved: Vec<PhysicalAttributes> = Vec::new();
        let mut i: usize = 0;
        while i < n
            invariant
                objects@ == snapshot,
                n == snapshot.len(),
                i <= n,
                moved@.len() == i,
                seconds_of(micros) == Some(t),
                forall|k: int| 0 <= k < i ==> displaced(snapshot[k].attributes, t) == Some(moved@[k]),
            decreases n - i,
        {
            let b = objects.bodies[i];
            match SpaceExecutor::displace(&b.attributes, &t) {
                Some(a) => moved.push(a),
                None => return Err(SimulationError::NumericInvalid),
            }
            i += 1;
        }
        let mut j: usize = 0;
        while j < n
            invariant
                n == snapshot.len(),
                j <= n,
                moved@.len() == n,
                seconds_of(micros) == Some(t),
                objects@.len() == n,
                forall|k: int| 0 <= k < n ==> displaced(snapshot[k].attributes, t) == Some(moved@[k]),
                forall|k: int| 0 <= k < j ==> objects@[k] == (Body { attributes: moved@[k], ..snapshot[k] }),
                forall|k: int| j <= k < n ==> objects@[k] == snapshot[k],
            decreases n - j,
        {
            let mut b = objects.bodies[j];
            b.set_physical_attributes(moved[j]);
            objects.bodies.set(j, b);
            j += 1;
        }
        assert forall|k: int| 0 <= k < snapshot.len() implies displaced(snapshot[k].attributes, t) is Some by {
            assert(displaced(snapshot[k].attributes, t) == Some(moved@[k]));
        }
        assert(objects@ =~= displacement_pass(snapshot, micros)->0);
        Ok(())
    }
}

} // verus!
