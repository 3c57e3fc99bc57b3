//! The record families produced by the parsing strategies, one module per
//! source shape.

pub mod concentration;
pub mod daily_close;
pub mod three_primary;
