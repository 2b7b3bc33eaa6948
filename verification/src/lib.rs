//! Camera motion, anchor binding, trauma shake and draw-order rules for a
//! two-dimensional game camera, over fixed-point coordinates.
//!
//! Every scalar is an `i64` that counts millionths: [`fixed::ONE`] stands for
//! 1.0. Time spans are `u64` counts of microseconds, so one second of time and
//! the scalar 1.0 are the same number.

pub mod fixed;
pub mod vector;
pub mod easing;
pub mod world;
pub mod camera;
pub mod anchor;
pub mod shake;
pub mod zorder;
pub mod screen_shake;
