//! A single-threaded cooperative runtime for non-blocking socket work.
//!
//! The library holds the decisions: which task slot a spawned computation
//! occupies, what each suspendable socket operation asks of the readiness
//! multiplexer, and how the scheduler keeps its descriptor registry in step
//! with the multiplexer. The caller performs the system calls and hands the
//! outcomes back as plain values.

pub mod interest;
pub mod ops;
pub mod scheduler;
pub mod tcp;
