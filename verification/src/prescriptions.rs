//! The prescription aggregate: its models and construction rules, the engine
//! that folds flat joined rows back into aggregates, and the repository port
//! with its in-memory implementation.

pub mod aggregation;
pub mod models;
pub mod repository;
