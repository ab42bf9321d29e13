//! Status-object translation: the error-reporting protocol of the native
//! ABI.
//!
//! Every native call returns a status: either null ("no error") or a handle
//! carrying an error code and a message.  A non-null status must be consumed
//! exactly once — translated into a typed result and released — and never
//! read again.  At this layer a status is the pair of plain values the
//! embedder read from the handle; consuming it by value makes "never read
//! twice" a type-system fact, and a [`ReleaseProbe`] counts every native
//! release performed so that "released exactly once" is visible in
//! contracts and tests.

use vstd::prelude::*;

use crate::error::OrsError;

verus! {

/// The native error code that means "no error".
pub const ORT_OK: u32 = 0;

/// The categories the native runtime's error codes fall into.
#[derive(Clone, Copy, Debug, PartialEq, Eq, Structural)]
pub enum OrtErrorCode {
    NoError,
    Fail,
    InvalidArgument,
    NoSuchFile,
    NoModel,
    EngineError,
    RuntimeException,
    InvalidProtobuf,
    ModelLoaded,
    NotImplemented,
    InvalidGraph,
    ExecutionProviderFail,
    /// A code outside the enumeration this layer was built against.
    Unknown,
}

/// The category a raw native error code denotes.
pub open spec fn spec_error_code_from_raw(raw: u32) -> OrtErrorCode {
    if raw == 0 {
        OrtErrorCode::NoError
    } else if raw == 1 {
        OrtErrorCode::Fail
    } else if raw == 2 {
        OrtErrorCode::InvalidArgument
    } else if raw == 3 {
        OrtErrorCode::NoSuchFile
    } else if raw == 4 {
        OrtErrorCode::NoModel
    } else if raw == 5 {
        OrtErrorCode::EngineError
    } else if raw == 6 {
        OrtErrorCode::RuntimeException
    } else if raw == 7 {
        OrtErrorCode::InvalidProtobuf
    } else if raw == 8 {
        OrtErrorCode::ModelLoaded
    } else if raw == 9 {
        OrtErrorCode::NotImplemented
    } else if raw == 10 {
        OrtErrorCode::InvalidGraph
    } else if raw == 11 {
        OrtErrorCode::ExecutionProviderFail
    } else {
        OrtErrorCode::Unknown
    }
}

impl OrtErrorCode {
    /// Categorize a raw native error code.
    pub fn from_raw(raw: u32) -> (c: OrtErrorCode)
        ensures
            c == spec_error_code_from_raw(raw),
    {
        if raw == 0 {
            OrtErrorCode::NoError
        } else if raw == 1 {
            OrtErrorCode::Fail
        } else if raw == 2 {
            OrtErrorCode::InvalidArgument
        } else if raw == 3 {
            OrtErrorCode::NoSuchFile
        } else if raw == 4 {
            OrtErrorCode::NoModel
        } else if raw == 5 {
            OrtErrorCode::EngineError
        } else if raw == 6 {
            OrtErrorCode::RuntimeException
        } else if raw == 7 {
            OrtErrorCode::InvalidProtobuf
        } else if raw == 8 {
            OrtErrorCode::ModelLoaded
        } else if raw == 9 {
            OrtErrorCode::NotImplemented
        } else if raw == 10 {
            OrtErrorCode::InvalidGraph
        } else if raw == 11 {
            OrtErrorCode::ExecutionProviderFail
        } else {
            OrtErrorCode::Unknown
        }
    }
}

/// Only the zero code means "no error": the category of a code and the
/// success test of status translation agree.
pub proof fn lemma_error_code_ok_agrees(raw: u32)
    ensures
        (spec_error_code_from_raw(raw) == OrtErrorCode::NoError) <==> raw == ORT_OK,
{
}

/// A non-null native status object, as read by the embedder: its error code
/// and its message.
#[derive(Debug)]
pub struct Status {
    pub code: u32,
    pub message: String,
}

/// Counts the native release calls this layer has asked for.  One probe is
/// threaded through every operation that frees a native handle, so a test
/// can observe that each handle is released exactly once.
#[derive(Debug)]
pub struct ReleaseProbe {
    pub count: u64,
}

impl ReleaseProbe {
    /// A probe that has seen no release yet.
    pub fn new() -> (probe: ReleaseProbe)
        ensures
            probe.count == 0,
    {
        ReleaseProbe { count: 0 }
    }
}

/// Construct a status value carrying an error code and a message, as the
/// native `CreateStatus` entry would.
pub fn create_status(code: u32, message: String) -> (status: Status)
    ensures
        status.code == code,
        status.message == message,
{
    Status { code, message }
}

/// Read the error code of a status without consuming it.
pub fn get_error_code(status: &Status) -> (code: u32)
    ensures
        code == status.code,
{
    status.code
}

/// Read the message of a status without consuming it.
pub fn get_error_msg(status: &Status) -> (message: String)
    ensures
        message == status.message,
{
    status.message.clone()
}

/// Release a status handle.  Taking the status by value means a released
/// status can never be read or released again.
pub fn release_status(status: Status, probe: &mut ReleaseProbe)
    requires
        old(probe).count < u64::MAX,
    ensures
        final(probe).count == old(probe).count + 1,
{
    let _ = status;
    probe.count = probe.count + 1;
}

/// Whether a status result reports success: a null status, or one carrying
/// the "no error" code.
pub open spec fn spec_status_ok(status: Option<Status>) -> bool {
    match status {
        Option::None => true,
        Option::Some(s) => s.code == ORT_OK,
    }
}

/// The typed result a status result translates to.
pub open spec fn spec_check(status: Option<Status>) -> Result<(), OrsError> {
    match status {
        Option::None => Result::Ok(()),
        Option::Some(s) => if s.code == ORT_OK {
            Result::Ok(())
        } else {
            Result::Err(OrsError::Runtime { code: s.code, message: s.message })
        },
    }
}

/// How many native releases translating a status result performs: one for a
/// non-null status, none for a null one.
pub open spec fn spec_release_delta(status: Option<Status>) -> nat {
    match status {
        Option::None => 0,
        Option::Some(_) => 1,
    }
}

/// Translate a status result into a typed result, releasing the underlying
/// handle exactly once.  A null status or a status carrying the "no error"
/// code is success; any other status yields [`OrsError::Runtime`] with its
/// code and its message verbatim.  Translation and release are one step: the
/// status is consumed, so it can never be read after release or leaked.
pub fn check_status(status: Option<Status>, probe: &mut ReleaseProbe) -> (r: Result<(), OrsError>)
    requires
        old(probe).count < u64::MAX,
    ensures
        r == spec_check(status),
        final(probe).count == old(probe).count + spec_release_delta(status),
        r is Ok <==> spec_status_ok(status),
{
    match status {
        Option::None => Result::Ok(()),
        Option::Some(s) => {
            if s.code == ORT_OK {
                release_status(s, probe);
                Result::Ok(())
            } else {
                let code = get_error_code(&s);
                let message = get_error_msg(&s);
                release_status(s, probe);
                Result::Err(OrsError::Runtime { code, message })
            }
        },
    }
}

/// What one handle-creating native call handed back: the status it returned
/// and the handle it wrote through its out-parameter.
#[derive(Debug)]
pub struct CallReply {
    pub status: Option<Status>,
    pub handle: usize,
}

/// Whether a reply reports success.
pub open spec fn spec_reply_ok(reply: CallReply) -> bool {
    spec_status_ok(reply.status)
}

/// How many native releases translating a reply's status performs.
pub open spec fn spec_reply_release_delta(reply: CallReply) -> nat {
    spec_release_delta(reply.status)
}

} // verus!
