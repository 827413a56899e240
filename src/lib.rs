//! Curve and fee engine of a two-asset automated market maker, with the
//! computations behind each pool operation.

pub mod constraints;
pub mod curve;
pub mod error;
pub mod processor;
pub mod state;
