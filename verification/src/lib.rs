//! Subhoofer: a bass-enhancement DSP engine in saturating fixed-point
//! arithmetic.
//!
//! Samples, control values and filter state are all carried as `i64` values
//! with twelve fractional decimal digits (`fixed::FP_ONE` is 1.0). Every
//! arithmetic step saturates at the symmetric range limit instead of wrapping,
//! so every function of the engine is total over its inputs and every value it
//! produces is finite by construction.
//!
//! The crate is organised leaf-first:
//! - [`fixed`]: the saturating fixed-point core (add, subtract, multiply,
//!   divide, absolute value) and its algebraic lemmas;
//! - [`math`]: polynomial and rational approximations of the transcendental
//!   curves the waveshapers use (sine, hyperbolic tangent, arctangent,
//!   exponential decay);
//! - [`saturation`]: the stateless nonlinear transfer functions;
//! - [`sweeten`]: the harmonic stacker, a smoothing buffer that synthesises a
//!   difference-tone harmonic series;
//! - [`console`]: the console filterbank, six fixed-topology nonlinear FIR
//!   colorations with magnitude-dependent tap weights;
//! - [`mix`]: DC blocking, dry/wet blending and level metering;
//! - [`engine`]: the per-sample subharmonic synthesiser and the full
//!   processing pipeline.

pub mod fixed;
pub mod math;
pub mod saturation;
pub mod console;
pub mod engine;
pub mod mix;
pub mod sweeten;
