//! Asynchronous I/O adapter for a callback-driven secure-channel engine.
//!
//! The engine pulls and pushes ciphertext through a pair of callbacks; the
//! transport delivers and accepts ciphertext in partial, non-blocking steps.
//! This crate holds the verified core that reconciles the two: the FIFO
//! buffers on each path, the callback bridge, and the adapter state machine
//! that decides, at every poll step, whether to retry, suspend, complete or
//! fail.

pub mod buffer;
pub mod bytebuf;
pub mod codes;
pub mod engine;
pub mod errors;
pub mod session;
pub mod ssl;

