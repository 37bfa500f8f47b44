//! Orchestration and cancellation layer for a long-running, cancellable
//! strip-packing optimization run.
//!
//! The crate splits one overall time budget into two sequential phases,
//! supplies a cross-thread, deadline-aware cancellation signal to an external
//! optimizer, and reconstructs a normalized placement report from a raw
//! solution, without assuming the optimizer guarantees ordering or
//! completeness.

pub mod budget;
pub mod config;
pub mod errors;
pub mod nesting;
pub mod serializer;
pub mod svg;
pub mod terminator;

pub use config::NestingConfig;
pub use config::NestingInput;
pub use errors::NestingError;
pub use nesting::NestingResult;
pub use nesting::run_nesting;
pub use nesting::run_nesting_engine;
pub use serializer::NestingOutput;
pub use serializer::PlacedItem;
pub use terminator::NativeTerminator;
pub use terminator::TerminatorState;
