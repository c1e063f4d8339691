//! Verified bookkeeping core of a magnetic-cusp particle simulator.
//!
//! The simulator traces charged test particles through the magnetic field of
//! axis-aligned circular current loops. Evaluating that field needs the two
//! complete elliptic integrals, which the simulator samples once into a dense
//! lookup table and then reads per step.
//!
//! All floating-point evaluation (the minimax approximations of the
//! integrals, the loop-field geometry, the Euler and Runge-Kutta stages)
//! lives with the embedding application: Verus refuses floating-point
//! numbers, so those values cross this crate only as opaque 64-bit words
//! (their IEEE-754 bit patterns). What this crate states and proves is
//! everything around them: the sample index of a modulus is computed as an
//! exact floor from the word's integer fields, every table read is clamped
//! and never out of bounds, the integrals' domain-edge fallbacks answer
//! exactly the arguments the conventions name, the simulation's fields and
//! particles are appended only before the first tick, rescaling happens at
//! most once and only before the first tick, every tick touches exactly
//! the particle states, and recorded history snapshots are immutable
//! values that later steps cannot alter.

pub mod engine;
pub mod integrals;
pub mod table;
