//! Evaluation of single-field predicates over JSON records.
pub mod error;
pub mod field;
pub mod matcher_core;
pub mod matcher_numeric;
pub mod dispatch;
