//! Validation of integer counter streams against a counting pattern.
//!
//! A [`pattern::Pattern`] describes which value legally follows a given
//! count, honouring a rollover ceiling and optional multi-dimensional
//! stepping. The counting machine in [`machine`] consumes one observed
//! count at a time, classifies it as in sync, newly desynchronized, or a
//! continuation of desynchronization, and tracks how synchronization was
//! regained. Desynchronization is a state, not an error: every count is a
//! legal input. The laws the machine obeys over whole observation streams
//! are proved in [`laws`].

pub mod laws;
pub mod machine;
pub mod pattern;

pub use machine::{CountState, Outcome, PatternState, PatternType};
pub use pattern::{ConfigError, Count, Pattern, SimpleSuccessor, Successor};
