//! Properties of the engine that hold for every input.
use crate::decimal::Decimal;
use crate::geometry::Vector;
use crate::physics::{
    displaced, displacement_pass, force_pass, net_force, net_force_prefix, pull, run, seconds_of, tick, with_force, Body,
    PhysicalAttributes,
};
use vstd::prelude::*;

verus! {

/// Two body lists that differ at most in the identities they carry, not in
/// which bodies share one: the same attributes in the same order, and the
/// same pairs of equal identities.
pub open spec fn same_but_identity(a: Seq<Body>, b: Seq<Body>) -> bool {
    &&& a.len() == b.len()
    &&& forall|i: int| 0 <= i < a.len() ==> #[trigger] a[i].attributes == b[i].attributes
    &&& forall|i: int, j: int|
        0 <= i < a.len() && 0 <= j < a.len() ==> (#[trigger] a[i].uid == #[trigger] a[j].uid
            <==> b[i].uid == b[j].uid)
}

/// A body alone feels no force: the force pass leaves the zero vector on it.
pub proof fn lemma_single_body_feels_no_force(b: Body)
    ensures
        force_pass(seq![b]) == Some(seq![with_force(b, Vector::spec_zero())]),
{
    let s = seq![b];
    assert(net_force_prefix(s, 0, 0) == Some(Vector::spec_zero()));
    assert(net_force_prefix(s, 0, 1) == Some(Vector::spec_zero()));
    assert(net_force(s, 0) == Some(Vector::spec_zero()));
    assert(force_pass(s)->0 =~= seq![with_force(b, Vector::spec_zero())]);
}

/// Two bodies at the same point do not pull on each other: where their
/// distance is zero, the running sum of forces is left as it was.
pub proof fn lemma_coincident_pair_adds_nothing(acc: Vector, a: PhysicalAttributes, b: PhysicalAttributes, r: Decimal)
    requires
        a.center.spec_distance(b.center) == Some(r),
        r.spec_is_zero(),
    ensures
        pull(acc, a, b) == Some(acc),
{
}

proof fn lemma_net_force_prefix_same(a: Seq<Body>, b: Seq<Body>, i: int, k: nat)
    requires
        same_but_identity(a, b),
        0 <= i < a.len(),
        k <= a.len(),
    ensures
        net_force_prefix(a, i, k) == net_force_prefix(b, i, k),
    decreases k,
{
    if k > 0 {
        lemma_net_force_prefix_same(a, b, i, (k - 1) as nat);
        assert(a[k - 1].attributes == b[k - 1].attributes);
        assert(a[i].attributes == b[i].attributes);
        assert(a[k - 1].uid == a[i].uid <==> b[k - 1].uid == b[i].uid);
    }
}

proof fn lemma_force_pass_same(a: Seq<Body>, b: Seq<Body>)
    requires
        same_but_identity(a, b),
    ensures
        force_pass(a) is Some <==> force_pass(b) is Some,
        force_pass(a) is Some ==> same_but_identity(force_pass(a)->0, force_pass(b)->0),
{
    assert forall|i: int| 0 <= i < a.len() implies net_force(a, i) == net_force(b, i) by {
        lemma_net_force_prefix_same(a, b, i, a.len());
    }
    if force_pass(a) is Some {
        assert forall|i: int| 0 <= i < b.len() implies net_force(b, i) is Some by {
            assert(net_force(a, i) is Some);
        }
    } else {
        let i = choose|i: int| 0 <= i < a.len() && !(net_force(a, i) is Some);
        assert(!(net_force(b, i) is Some));
    }
}

proof fn lemma_displacement_pass_same(a: Seq<Body>, b: Seq<Body>, micros: u128)
    requires
        same_but_identity(a, b),
    ensures
        displacement_pass(a, micros) is Some <==> displacement_pass(b, micros) is Some,
        displacement_pass(a, micros) is Some ==> same_but_identity(
            displacement_pass(a, micros)->0,
            displacement_pass(b, micros)->0,
        ),
{
    if let Some(t) = seconds_of(micros) {
        assert forall|i: int| 0 <= i < a.len() implies displaced(a[i].attributes, t)
            == displaced(b[i].attributes, t) by {
            assert(a[i].attributes == b[i].attributes);
        }
        if displacement_pass(a, micros) is Some {
            assert forall|i: int| 0 <= i < b.len() implies displaced(b[i].attributes, t) is Some by {
                assert(displaced(a[i].attributes, t) is Some);
            }
            let da = displacement_pass(a, micros)->0;
            let db = displacement_pass(b, micros)->0;
            assert forall|i: int, j: int| 0 <= i < da.len() && 0 <= j < da.len() implies (#[trigger] da[i].uid
                == #[trigger] da[j].uid <==> db[i].uid == db[j].uid) by {
                assert(a[i].uid == a[j].uid <==> b[i].uid == b[j].uid);
            }
        } else {
            let i = choose|i: int| 0 <= i < a.len() && !(displaced(a[i].attributes, t) is Some);
            assert(!(displaced(b[i].attributes, t) is Some));
        }
    }
}

/// A tick depends on nothing but the bodies' attributes and which of them
/// share an identity: two scenarios built alike, whatever identities they
/// drew, fail alike or end alike.
pub proof fn lemma_tick_deterministic(a: Seq<Body>, b: Seq<Body>, micros: u128)
    requires
        same_but_identity(a, b),
    ensures
        tick(a, micros) is Some <==> tick(b, micros) is Some,
        tick(a, micros) is Some ==> same_but_identity(tick(a, micros)->0, tick(b, micros)->0),
{
    lemma_force_pass_same(a, b);
    if force_pass(a) is Some {
        lemma_displacement_pass_same(force_pass(a)->0, force_pass(b)->0, micros);
    }
}

/// Two scenarios built alike and run for the same number of ticks of the
/// same length end with identical attributes.
pub proof fn lemma_run_deterministic(a: Seq<Body>, b: Seq<Body>, micros: u128, n: nat)
    requires
        same_but_identity(a, b),
    ensures
        run(a, micros, n) is Some <==> run(b, micros, n) is Some,
        run(a, micros, n) is Some ==> same_but_identity(run(a, micros, n)->0, run(b, micros, n)->0),
    decreases n,
{
    if n > 0 {
        lemma_run_deterministic(a, b, micros, (n - 1) as nat);
        if run(a, micros, (n - 1) as nat) is Some {
            lemma_tick_deterministic(run(a, micros, (n - 1) as nat)->0, run(b, micros, (n - 1) as nat)->0, micros);
        }
    }
}

/// A tick never changes a body's identity or mass, so a well-formed body
/// stays well-formed.
pub proof fn lemma_tick_keeps_identity_and_mass(s: Seq<Body>, micros: u128)
    requires
        tick(s, micros) is Some,
    ensures
        tick(s, micros)->0.len() == s.len(),
        forall|i: int|
            0 <= i < s.len() ==> (#[trigger] tick(s, micros)->0[i]).uid == s[i].uid
                && tick(s, micros)->0[i].attributes.mass == s[i].attributes.mass,
        forall|i: int|
            0 <= i < s.len() && s[i].attributes.valid() ==> (#[trigger] tick(s, micros)->0[i]).attributes.valid(),
{
    let f = force_pass(s)->0;
    let t = seconds_of(micros)->0;
    assert forall|i: int| 0 <= i < s.len() implies (#[trigger] tick(s, micros)->0[i]).uid == s[i].uid
        && tick(s, micros)->0[i].attributes.mass == s[i].attributes.mass by {
        assert(f[i] == with_force(s[i], net_force(s, i)->0));
        assert(displaced(f[i].attributes, t) is Some);
    }
}

/// Two body lists that agree in positions, masses and which bodies share an
/// identity; velocities, previous forces and the identities themselves may
/// differ.
pub open spec fn same_positions_and_masses(a: Seq<Body>, b: Seq<Body>) -> bool {
    &&& a.len() == b.len()
    &&& forall|i: int|
        0 <= i < a.len() ==> (#[trigger] a[i]).attributes.center == b[i].attributes.center
            && a[i].attributes.mass == b[i].attributes.mass
    &&& forall|i: int, j: int|
        0 <= i < a.len() && 0 <= j < a.len() ==> (#[trigger] a[i].uid == #[trigger] a[j].uid
            <==> b[i].uid == b[j].uid)
}

/// Forces do not build up from tick to tick and depend on positions and
/// masses alone: two lists that agree in those get the same forces from the
/// force pass, whatever velocities and forces they held before.
pub proof fn lemma_force_pass_ignores_previous_forces(a: Seq<Body>, b: Seq<Body>)
    requires
        same_positions_and_masses(a, b),
    ensures
        force_pass(a) is Some <==> force_pass(b) is Some,
        force_pass(a) is Some ==> forall|i: int|
            0 <= i < a.len() ==> (#[trigger] force_pass(a)->0[i]).attributes.force == force_pass(b)->0[i].attributes.force,
{
    assert forall|i: int| 0 <= i < a.len() implies net_force(a, i) == net_force(b, i) by {
        lemma_net_force_prefix_ignores_forces(a, b, i, a.len());
    }
    if force_pass(a) is Some {
        assert forall|i: int| 0 <= i < b.len() implies net_force(b, i) is Some by {
            assert(net_force(a, i) is Some);
        }
    } else {
        let i = choose|i: int| 0 <= i < a.len() && !(net_force(a, i) is Some);
        assert(!(net_force(b, i) is Some));
    }
}

proof fn lemma_net_force_prefix_ignores_forces(a: Seq<Body>, b: Seq<Body>, i: int, k: nat)
    requires
        same_positions_and_masses(a, b),
        0 <= i < a.len(),
        k <= a.len(),
    ensures
        net_force_prefix(a, i, k) == net_force_prefix(b, i, k),
    decreases k,
{
    if k > 0 {
        lemma_net_force_prefix_ignores_forces(a, b, i, (k - 1) as nat);
        assert(a[k - 1].uid == a[i].uid <==> b[k - 1].uid == b[i].uid);
        assert(a[k - 1].attributes.center == b[k - 1].attributes.center);
        assert(a[i].attributes.center == b[i].attributes.center);
        if let Some(acc) = net_force_prefix(a, i, (k - 1) as nat) {
            assert(pull(acc, a[i].attributes, a[k - 1].attributes) == pull(acc, b[i].attributes, b[k - 1].attributes));
        }
    }
}

} // verus!
