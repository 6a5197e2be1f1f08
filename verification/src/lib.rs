//! Orchestration of confidential computations: encrypted operands are
//! submitted as a request, a compute cluster evaluates a fixed circuit on
//! them, and its signed, still encrypted result is verified and handed out.
//!
//! - [`circuits`]: what the three circuits compute, on plaintext values.
//! - [`registry`]: the write-once registry of computation definitions.
//! - [`dispatcher`]: submission of requests, with their ordered arguments.
//! - [`callbacks`]: matching, decoding and settling of cluster responses.
//! - [`program`]: the operations of each circuit, built from the above.

pub mod arguments;
pub mod callbacks;
pub mod circuits;
pub mod dispatcher;
pub mod encoding;
pub mod errors;
pub mod ledger;
pub mod program;
pub mod registry;
pub mod requests;
