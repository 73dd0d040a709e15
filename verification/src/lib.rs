//! Register-field access, regulator control and panel power sequencing,
//! written as pure state machines over plain values.
//!
//! Nothing in this library touches hardware. A field accessor names the
//! register transaction to perform; a driver names one transaction or action
//! at a time and is told how it went. The caller owns the bus, the rails,
//! the reset line and the clock.

pub mod bits;
pub mod device;
pub mod drm;
pub mod error;
pub mod ncv6336;
pub mod of;
pub mod panel_truly_r63350;
pub mod regmap;
pub mod regulator;
pub mod time;
