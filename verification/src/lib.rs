//! A single-value tweening engine.
//!
//! Given a start value, an end value and a duration, a [`tween::Tween`]
//! produces a time-parameterized trajectory that a host samples once per
//! frame to drive an animatable property (a position, a color) smoothly to
//! its target, and that can be redirected mid-flight to a new end value
//! without a visible jump.
//!
//! Time is measured in whole milliseconds and values carry fixed-point
//! integer channels, so every sample is an exact function of the tween's
//! state and the proofs in this crate pin that function down.

pub mod algebra;
pub mod spline;
pub mod timer;
pub mod tween;

pub use algebra::{ColorRgba, Translation, TweenValue, ValueAlgebra};
pub use spline::{Interpolation, Key, Spline};
pub use timer::Timer;
pub use tween::{tween_system, Tween};
