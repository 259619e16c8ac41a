//! A fundamental-analysis metrics engine for corporate financial statements.
//!
//! The library derives growth rates, margin ratios, trend classifications and
//! theoretical price targets from quarterly (trailing-twelve-month) and annual
//! statement records, and sequences the recomputation of the derived fields so
//! that each step only reads values that an earlier step has already filled.
//!
//! All monetary and percentage values are carried in two-decimal fixed point:
//! an `i64` holds one hundredth of the underlying unit (`1234` is `12.34`).
//! Division rounds half away from zero, so every formula here is a total,
//! exactly specified function of its integer inputs.  Storage, scraping and
//! HTTP are outside collaborators: the engine only transforms in-memory
//! records and never performs I/O.
#![verifier::loop_isolation(false)]

pub mod calculate;
pub mod fixed;
pub mod helper;
pub mod metrics;
pub mod records;
pub mod sequencer;
pub mod trend;
