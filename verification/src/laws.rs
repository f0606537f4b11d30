//! What the operations of the library are for, said of the operations themselves.
//!
//! Each law speaks of calls: of what goes into them, what comes out, and how one call relates to
//! another. None of them depends on how the library describes an operation elsewhere.

pub mod encoding;
pub mod locking;
pub mod messaging;
pub mod numbers;
pub mod owners;
pub mod searching;
pub mod threads;
