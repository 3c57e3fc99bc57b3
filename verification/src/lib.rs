//! Market-data ingestion core: charset-aware content normalization, a fixed
//! set of parsing strategies (HTML concentration pages, column-indexed CSV
//! exports), stateful multi-page aggregation, and retry planning for
//! at-least-once publishing.
//!
//! Network transport, the async fetch pool and the message producer live
//! outside this crate; the library works on plain values handed in by that
//! outer layer and states what it computes in contracts.

pub mod chars;
pub mod config;
pub mod csvsplit;
pub mod errors;
pub mod fetcher;
pub mod fmt;
pub mod html;
pub mod jsonout;
pub mod model;
pub mod models;
pub mod numeric;
pub mod parser;
pub mod process;
pub mod strategies;
