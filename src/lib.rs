//! Decision logic, scene data and pixel bookkeeping of a signed-distance-field
//! path tracer. The floating-point geometry that drives these decisions is
//! supplied by the caller.

pub mod config;
pub mod grid;
pub mod kind;
pub mod march;
pub mod path;
pub mod raster;
pub mod scene;
