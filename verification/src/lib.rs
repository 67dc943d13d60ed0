//! An offline physically-based renderer: a recursive Monte Carlo path tracer
//! with multiple-importance sampling over closed-form primitives (planes,
//! ellipsoids, boxes).
//!
//! All rendering arithmetic is carried out in a saturating fixed-point scalar
//! type ([`fx::Fx`]), so that every numeric step of the pipeline has an exact
//! mathematical meaning that the contracts state and the proofs cover.
//! Randomness comes from a seeded generator of the `rand` crate, drawn through
//! a small trusted boundary ([`rng`]); everything computed from those draws is
//! verified.

pub mod distribution;
pub mod fx;
pub mod geometry;
pub mod quat;
pub mod rendering;
pub mod rng;
pub mod scene;
pub mod vec3;
