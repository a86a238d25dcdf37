//! Time-of-day display warmth scheduling, verified.
//!
//! Real-valued quantities (redshift, brightness, hours, kelvin) are held as
//! whole millionths, so every formula is exact integer arithmetic with a
//! single, stated rounding.

pub mod section;
pub mod text;
pub mod waketime;
pub mod evaluate;
pub mod display;
pub mod config;
pub mod reply;
pub mod schedule;
