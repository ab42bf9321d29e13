//! A safety and lifecycle layer over a native inference runtime exposed
//! through a C-style ABI: a versioned function-pointer table, opaque handles,
//! and status-object error reporting.
//!
//! The native runtime itself performs the numerical work and is reached only
//! through unsafe calls that live with the embedder.  This crate holds the
//! part that can be verified: the one-time resolution state machine for the
//! API table, the process-wide environment and its ordering rules, the
//! session-builder configuration state machine, schema introspection,
//! status-to-result translation, tensor shape and type validation, and the
//! release bookkeeping that makes every native handle freed exactly once.
//!
//! Every native call is represented at this layer as plain values: the
//! request a caller must pass across the ABI, and the reply (a handle and an
//! optional status object) the native side handed back.  The embedder
//! performs the unsafe dispatch between the two; all decisions before the
//! call and all interpretation after it are verified here.

pub mod api;
pub mod config;
pub mod env;
pub mod error;
pub mod log;
pub mod memory_info;
pub mod session;
pub mod session_io;
pub mod status;
pub mod tensor;
pub mod types;
