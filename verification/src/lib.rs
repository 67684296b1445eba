//! Core simulation of a top-down arcade shooter: steering and flocking for
//! enemies, projectile lifecycle with screen wrapping, combat resolution
//! (damage, death, knockback, invulnerability), and a time-driven wave
//! scheduler. All spatial values are fixed-point integers; rendering, audio
//! and input live outside this crate and only exchange plain values with it.

pub mod combat;
pub mod effects;
pub mod mathx;
pub mod motion;
pub mod perimeter;
pub mod phase;
pub mod projectile;
pub mod smoothing;
pub mod spawn;
pub mod steering;
pub mod timer;
pub mod vec2;
pub mod waves;
