//! A manager of several windows, each a logical pixel buffer that a worker realizes natively.

pub mod api;
pub mod app;
pub mod laws;
pub mod model;
pub mod surface;
pub mod types;
