//! Filters over students, and the chain that applies several of them in turn.

pub mod narrowing;
pub mod student;

pub use narrowing::Narrowing;
pub use student::{StudentFilter, StudentFilterOptions};
