//! The fixed set of parsing strategies, one per record family.

pub mod concentration;
pub mod daily_close;
pub mod three_primary;
