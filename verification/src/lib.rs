//! A small arithmetic library: adding two integers, summing a sequence of
//! integers, and an affine transformation, each proved against its
//! mathematical statement.

pub mod arith;
pub mod decimal;
pub mod report;
