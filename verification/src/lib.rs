//! A deterministic simulation core for a set of particles moving under the
//! Lorenz equations, together with the bookkeeping a rendering host needs:
//! append-only trajectory histories, time-windowed eviction of rendered
//! artifacts, and a derived camera aim point.
//!
//! Coordinates are fixed-point: signed 64-bit multiples of one ten-millionth
//! of a spatial unit. This keeps every step of the simulation exact and
//! reproducible across machines, which is what the contracts in this crate
//! are stated over.

pub mod camera;
pub mod integrator;
pub mod lifecycle;
mod num;
pub mod point;
pub mod queue;
pub mod sim;
pub mod trajectory;
