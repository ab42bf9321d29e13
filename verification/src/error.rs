//! The error taxonomy of the lifecycle layer.
//!
//! Every ABI boundary crossing is translated into one of these typed errors
//! and propagated to the immediate caller; nothing is swallowed and no
//! recoverable condition panics.

use vstd::prelude::*;

use crate::types::ElementType;

verus! {

/// Why resolving the native library failed.  Both cases are recoverable: the
/// resolver returns to its uninitialized state so that a retry with
/// corrected input is possible.
#[derive(Debug)]
pub enum InitFailure {
    /// The shared library could not be loaded or a required symbol was
    /// missing.
    LoadFailed,
    /// The loaded library reported an API version other than the one this
    /// layer was built against.
    VersionMismatch { expected: u32, reported: u32 },
}

/// A typed failure of the lifecycle layer.
#[derive(Debug)]
pub enum OrsError {
    /// Library or version resolution failed.
    Initialization(InitFailure),
    /// A configuration value was unusable: the model file does not exist at
    /// the given path, checked before any ABI call is made.
    ModelNotFound,
    /// An operation that needs the API table or the environment ran before
    /// resolution or initialization.
    NotInitialized,
    /// The native runtime reported a failure: the error code and the message
    /// read from the status object, verbatim.
    Runtime { code: u32, message: String },
    /// A buffer or tensor count did not fit what a shape or schema expects.
    /// `expected_elements` is `None` when the expected element count exceeds
    /// the machine's address range.
    ShapeMismatch { expected_elements: Option<usize>, actual_elements: usize },
    /// A bound tensor's element type did not match its schema slot.
    TypeMismatch { expected: ElementType, actual: ElementType },
}

} // verus!
