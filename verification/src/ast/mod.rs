//! The command model and the grammar that produces it.

pub mod cmd;
pub mod commons;
pub mod parser;
