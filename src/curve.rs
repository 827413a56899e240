//! Pricing curves and the fee model.

pub mod calculator;
pub mod fees;
pub mod precise;
pub mod wide;
pub mod constant_product;
pub mod constant_price;
pub mod offset;
pub mod base;
pub mod conservation;
