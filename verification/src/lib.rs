//! An overflow-safe constant-product swap engine.
//!
//! The engine converts a deposited quantity of one reserve asset into an
//! output quantity of a second reserve asset under a constant-product
//! pricing rule. Every multiplication of two native-width quantities is
//! performed at double width, every narrowing back to native width is a
//! fallible operation, and every failure is surfaced to the caller as a
//! typed error: no arithmetic step silently wraps or truncates.

pub mod engine;
pub mod error;
pub mod harness;
pub mod laws;
pub mod math;
pub mod oracle;
pub mod pool;
