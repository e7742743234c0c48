//! A description of an applet-facing API: modules, functions, their
//! parameters and their types, together with the description of the clock
//! module.

pub mod item;
pub mod clock;
