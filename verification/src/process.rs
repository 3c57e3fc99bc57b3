//! Per-record-family run planning and aggregation: which addresses a run
//! fetches, how fragments merge, and how delivery retries are bounded.

pub mod concentration;
pub mod daily_close;
pub mod publish;
pub mod three_primary;
