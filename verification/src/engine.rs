//! Simulation engine bookkeeping: fields, particles, history.
//!
//! A simulation owns an ordered list of current loops (read-only during a
//! run), an ordered list of particles (mutated every micro-step), the three
//! physical scalars (electron mass, electron charge, and the conditioning
//! scale factor), and an append-only history of per-macro-step snapshots.
//!
//! The numeric work of a step — superposing the loop fields, the Lorentz
//! acceleration, the Euler or Runge-Kutta stages — is floating point and so
//! lives with the embedding application; scalars cross this crate as opaque
//! 64-bit words (IEEE-754 bit patterns). What is stated and proved here is
//! the engine's discipline: loops and particles are appended only before
//! the first tick, a tick replaces exactly the particle states and nothing
//! else, rescaling happens at most once and only before the first tick, and
//! a recorded snapshot is a value copy that no later step can alter.

use vstd::prelude::*;
use vstd::assert_seqs_equal;

verus! {

/// Word (IEEE-754 bit pattern) of the default electron mass,
/// 9.10938291e-31 kg.
pub const ELECTRON_MASS_WORD: u64 = 0x39B279DCADC7C7F1;

/// Word (IEEE-754 bit pattern) of the default electron charge magnitude,
/// 1.6021766208e-19 C.
pub const ELECTRON_CHARGE_WORD: u64 = 0x3C07A4DA25C77015;

/// Word (IEEE-754 bit pattern) of the default conditioning scale factor,
/// 1e20.
pub const SCALE_FACTOR_WORD: u64 = 0x4415AF1D78B58C40;

/// Word (IEEE-754 bit pattern) of the smallest infinity; every word below
/// it and above zero encodes a positive finite value.
pub const POSITIVE_INFINITY_WORD: u64 = 0x7FF0000000000000;

/// Whether a scalar word encodes a positive finite value: its sign bit is
/// clear, it is not zero, and it lies below the infinity bit pattern.
pub open spec fn positive_finite_word(w: u64) -> bool {
    1 <= w < POSITIVE_INFINITY_WORD
}

/// A 3-vector of scalar words.
#[derive(Clone, Copy, Debug, PartialEq, Eq, Structural)]
pub struct Vec3 {
    pub x: u64,
    pub y: u64,
    pub z: u64,
}

/// One circular current loop, aligned to the principal axis: its radius,
/// the position of its centre, and its signed current (the sign encodes
/// the loop's polarity along the axis). Immutable once added to a run.
#[derive(Clone, Copy, Debug, PartialEq, Eq, Structural)]
pub struct Field {
    pub radius: u64,
    pub position: Vec3,
    pub current: u64,
}

/// One test particle: its position and velocity. Each particle is an
/// independent test charge, mutated in place every micro-step.
#[derive(Clone, Copy, Debug, PartialEq, Eq, Structural)]
pub struct Electron {
    pub position: Vec3,
    pub velocity: Vec3,
}

/// A run description: micro-step size `dt` (a scalar word), the number of
/// macro-steps, the number of particles, and the number of micro-steps per
/// macro-step.
#[derive(Clone, Copy, Debug, PartialEq, Eq, Structural)]
pub struct Config {
    pub dt: u64,
    pub steps: usize,
    pub num_particles: usize,
    pub micro_step: usize,
}

/// The simulation: loops, particles, physical scalars, history, and the
/// two lifecycle flags that the method contracts enforce.
pub struct Simulation {
    /// Conditioning multiplier applied (at most once, by `rescale`) to both
    /// mass and charge, keeping magnitudes in a safe floating-point range
    /// without altering the charge-to-mass ratio.
    pub scale_factor: u64,
    pub electron_mass: u64,
    pub electron_charge: u64,
    /// The current loops, read-only once the first tick has run.
    pub fields: Vec<Field>,
    /// The live particle states.
    pub particles: Vec<Electron>,
    /// One snapshot of the whole particle list per macro-step, in call
    /// order, each a value copy of the states at recording time.
    pub history: Vec<Vec<Electron>>,
    /// Whether any tick has been committed yet.
    pub ticked: bool,
    /// Whether `rescale` has been applied yet.
    pub rescaled: bool,
}

/// A value copy of a particle list, so a snapshot shares nothing with the
/// live states it was taken from.
fn copy_particles(src: &Vec<Electron>) -> (out: Vec<Electron>)
    ensures
        out@ == src@,
{
    let mut out: Vec<Electron> = Vec::new();
    let mut i: usize = 0;
    while i < src.len()
        invariant
            i <= src@.len(),
            out@ == src@.subrange(0, i as int),
        decreases src@.len() - i,
    {
        out.push(src[i]);
        i = i + 1;
    }
    proof {
        assert_seqs_equal!(out@ == src@);
    }
    out
}

impl Simulation {
    /// The recorded history as a sequence of particle-state sequences.
    pub open spec fn snapshots(self) -> Seq<Seq<Electron>> {
        self.history@.map(|i: int, snap: Vec<Electron>| snap@)
    }

    /// A fresh simulation: the default physical constants, no loops, no
    /// particles, no history, nothing ticked or rescaled yet.
    pub fn new() -> (sim: Simulation)
        ensures
            sim.scale_factor == SCALE_FACTOR_WORD,
            sim.electron_mass == ELECTRON_MASS_WORD,
            sim.electron_charge == ELECTRON_CHARGE_WORD,
            sim.fields@ == Seq::<Field>::empty(),
            sim.particles@ == Seq::<Electron>::empty(),
            sim.snapshots() == Seq::<Seq<Electron>>::empty(),
            !sim.ticked,
            !sim.rescaled,
    {
        let sim = Simulation {
            scale_factor: SCALE_FACTOR_WORD,
            electron_mass: ELECTRON_MASS_WORD,
            electron_charge: ELECTRON_CHARGE_WORD,
            fields: Vec::new(),
            particles: Vec::new(),
            history: Vec::new(),
            ticked: false,
            rescaled: false,
        };
        proof {
            assert_seqs_equal!(sim.snapshots() == Seq::<Seq<Electron>>::empty());
        }
        sim
    }

    /// Appends one current loop. Loops are appended only before the first
    /// tick, and only with a radius word that encodes a positive finite
    /// value; nothing else of the simulation changes.
    pub fn add_field(&mut self, field: Field)
        requires
            !old(self).ticked,
            positive_finite_word(field.radius),
        ensures
            final(self).fields@ == old(self).fields@.push(field),
            final(self).particles@ == old(self).particles@,
            final(self).snapshots() == old(self).snapshots(),
            final(self).scale_factor == old(self).scale_factor,
            final(self).electron_mass == old(self).electron_mass,
            final(self).electron_charge == old(self).electron_charge,
            final(self).ticked == old(self).ticked,
            final(self).rescaled == old(self).rescaled,
    {
        self.fields.push(field);
    }

    /// Appends one particle, before the first tick only; nothing else of
    /// the simulation changes.
    pub fn add_particle(&mut self, particle: Electron)
        requires
            !old(self).ticked,
        ensures
            final(self).particles@ == old(self).particles@.push(particle),
            final(self).fields@ == old(self).fields@,
            final(self).snapshots() == old(self).snapshots(),
            final(self).scale_factor == old(self).scale_factor,
            final(self).electron_mass == old(self).electron_mass,
            final(self).electron_charge == old(self).electron_charge,
            final(self).ticked == old(self).ticked,
            final(self).rescaled == old(self).rescaled,
    {
        self.particles.push(particle);
    }

    /// Records the rescaled physical scalars. The caller multiplies both
    /// mass and charge by the same factor (one floating-point product each,
    /// outside this crate) and hands the two product words in; the engine
    /// enforces that this happens at most once and only before the first
    /// tick, and that particle state, loops and history stay untouched.
    pub fn rescale(&mut self, factor: u64, scaled_mass: u64, scaled_charge: u64)
        requires
            !old(self).ticked,
            !old(self).rescaled,
        ensures
            final(self).scale_factor == factor,
            final(self).electron_mass == scaled_mass,
            final(self).electron_charge == scaled_charge,
            final(self).rescaled,
            final(self).ticked == old(self).ticked,
            final(self).fields@ == old(self).fields@,
            final(self).particles@ == old(self).particles@,
            final(self).snapshots() == old(self).snapshots(),
    {
        self.scale_factor = factor;
        self.electron_mass = scaled_mass;
        self.electron_charge = scaled_charge;
        self.rescaled = true;
    }

    /// Commits one micro-step: replaces the particle states with the
    /// integrated ones, one for one, and marks the simulation as ticked.
    /// Loops, scalars and history are untouched, so no step can reach back
    /// into a recorded snapshot.
    pub fn commit_states(&mut self, updated: Vec<Electron>)
        requires
            updated@.len() == old(self).particles@.len(),
        ensures
            final(self).particles@ == updated@,
            final(self).ticked,
            final(self).fields@ == old(self).fields@,
            final(self).snapshots() == old(self).snapshots(),
            final(self).scale_factor == old(self).scale_factor,
            final(self).electron_mass == old(self).electron_mass,
            final(self).electron_charge == old(self).electron_charge,
            final(self).rescaled == old(self).rescaled,
    {
        self.particles = updated;
        self.ticked = true;
    }

    /// Records one macro-step snapshot: appends a value copy of the whole
    /// particle list to the history. The live states stay as they are, and
    /// no earlier snapshot moves.
    pub fn record_snapshot(&mut self)
        ensures
            final(self).snapshots() == old(self).snapshots().push(old(self).particles@),
            final(self).particles@ == old(self).particles@,
            final(self).fields@ == old(self).fields@,
            final(self).scale_factor == old(self).scale_factor,
            final(self).electron_mass == old(self).electron_mass,
            final(self).electron_charge == old(self).electron_charge,
            final(self).ticked == old(self).ticked,
            final(self).rescaled == old(self).rescaled,
    {
        let snap = copy_particles(&self.particles);
        self.history.push(snap);
        proof {
            assert_seqs_equal!(self.snapshots() ==
                old(self).snapshots().push(old(self).particles@));
        }
    }
}

/// Law: a snapshot is a value, not a view of the live particles. Recording
/// a snapshot and then committing any later states leaves every earlier
/// snapshot as it was and the fresh snapshot equal to the states at
/// recording time, whatever the committed states are.
pub proof fn snapshot_isolation(
    pre: Simulation,
    mid: Simulation,
    post: Simulation,
    updated: Seq<Electron>,
)
    requires
        mid.snapshots() == pre.snapshots().push(pre.particles@),
        post.snapshots() == mid.snapshots(),
        post.particles@ == updated,
    ensures
        post.snapshots().len() == pre.snapshots().len() + 1,
        post.snapshots().last() == pre.particles@,
        forall|k: int|
            0 <= k < pre.snapshots().len() ==> post.snapshots()[k] == pre.snapshots()[k],
{
}

} // verus!

