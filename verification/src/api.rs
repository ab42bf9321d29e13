//! Lazy, retryable resolution of the native API table.
//!
//! The native library exposes one versioned function-pointer table; nothing
//! may be dispatched through it before resolution completes.  Resolution is
//! a state machine over `Uninitialized`, `Resolving` and `Ready`: only the
//! transition out of `Uninitialized` performs a real load, a caller that
//! observes `Resolving` must wait, and a failed load returns the machine to
//! `Uninitialized` so a retry with corrected input (for example another
//! library path) stays possible.
//!
//! The load itself — opening the shared library and reading its API-base
//! entry — is unsafe work the embedder performs; it reports back a
//! [`LoadOutcome`], and this module decides what the outcome means.  The
//! `loads` counter records every native load adopted by the machine, making
//! "only the first call performs real work" checkable.

use vstd::prelude::*;

use crate::error::InitFailure;
use crate::error::OrsError;
use crate::status::ReleaseProbe;

verus! {

/// The API version this layer was built against.  A dynamically loaded
/// library must report exactly this version or resolution fails.
pub const ORT_API_VERSION: u32 = 8;

/// The default location of the native shared library on this platform.
pub fn find() -> (path: Option<String>)
    ensures
        path matches Some(p) && p@ == "/usr/local/lib/libonnxruntime.so"@,
{
    Option::Some(String::from_str("/usr/local/lib/libonnxruntime.so"))
}

/// Where the resolver stands.
#[derive(Debug)]
pub enum RuntimeState {
    /// No API table is available; a load may be started.
    Uninitialized,
    /// A load is in flight; other callers must wait for its outcome.
    Resolving,
    /// The table is resolved and immutable: `lib_handle` owns the loaded
    /// library, `api_version` is the version it reported.
    Ready { lib_handle: usize, api_version: u32 },
}

/// The resolver: the only holder of the loaded native library and of the
/// resolved API table.  Everything else borrows the table read-only once
/// the state is `Ready`.
#[derive(Debug)]
pub struct Runtime {
    pub state: RuntimeState,
    /// How many native library loads have been adopted.  Idempotence of
    /// initialization means this counts at most one successful load.
    pub loads: u64,
}

/// What the embedder's attempt to load the native library reported back.
#[derive(Debug)]
pub enum LoadOutcome {
    /// The library was opened and its API base read: the handle owning the
    /// library and the API version it reports.
    Loaded { lib_handle: usize, api_version: u32 },
    /// The library could not be opened or a symbol was missing.
    Failed,
}

/// What a caller asking for initialization must do next.
#[derive(Debug, PartialEq, Eq, Structural)]
pub enum InitAction {
    /// The table is already resolved; use it.  No native work happens.
    UseExisting,
    /// This caller won the race: perform the load and report its outcome.
    PerformLoad,
    /// Another caller is loading; wait until the state leaves `Resolving`.
    Wait,
}

impl Runtime {
    /// A resolver that has done nothing yet.
    pub fn new() -> (rt: Runtime)
        ensures
            rt.state is Uninitialized,
            rt.loads == 0,
    {
        Runtime { state: RuntimeState::Uninitialized, loads: 0 }
    }

    /// Whether the API table is resolved and may be dispatched through.
    pub open spec fn spec_is_ready(&self) -> bool {
        self.state is Ready
    }

    /// Whether a load is in flight.
    pub open spec fn spec_is_resolving(&self) -> bool {
        self.state is Resolving
    }

    /// Whether the API table is resolved and may be dispatched through.
    pub fn is_ready(&self) -> (r: bool)
        ensures
            r == self.spec_is_ready(),
    {
        match self.state {
            RuntimeState::Ready { .. } => true,
            _ => false,
        }
    }

    /// The resolved API version, or `NotInitialized` before resolution.
    pub fn api_version(&self) -> (r: Result<u32, OrsError>)
        ensures
            r is Ok <==> self.spec_is_ready(),
            r matches Ok(v) ==> self.state matches RuntimeState::Ready { api_version, .. }
                && v == api_version,
            r is Err ==> r matches Err(OrsError::NotInitialized),
    {
        match self.state {
            RuntimeState::Ready { api_version, .. } => Result::Ok(api_version),
            _ => Result::Err(OrsError::NotInitialized),
        }
    }
}

/// What `begin_initialize` decides in each state.
pub open spec fn spec_begin_initialize(rt: Runtime) -> (Runtime, InitAction) {
    match rt.state {
        RuntimeState::Uninitialized => (
            Runtime { state: RuntimeState::Resolving, ..rt },
            InitAction::PerformLoad,
        ),
        RuntimeState::Resolving => (rt, InitAction::Wait),
        RuntimeState::Ready { .. } => (rt, InitAction::UseExisting),
    }
}

/// Ask for the API table.  Callable any number of times: once the table is
/// resolved every caller is told to use the existing one and no further
/// native work happens; while a load is in flight the caller is told to
/// wait; only from the uninitialized state is a load started.
pub fn begin_initialize(rt: &mut Runtime) -> (action: InitAction)
    ensures
        (*final(rt), action) == spec_begin_initialize(*old(rt)),
{
    match rt.state {
        RuntimeState::Uninitialized => {
            rt.state = RuntimeState::Resolving;
            InitAction::PerformLoad
        },
        RuntimeState::Resolving => InitAction::Wait,
        RuntimeState::Ready { .. } => InitAction::UseExisting,
    }
}

/// What `complete_initialize` does with a load outcome: the next state, how
/// many loads were adopted, and the result reported to the first caller.
pub open spec fn spec_complete_initialize(rt: Runtime, outcome: LoadOutcome) -> (
    Runtime,
    Result<(), OrsError>,
) {
    match outcome {
        LoadOutcome::Loaded { lib_handle, api_version } => if api_version == ORT_API_VERSION {
            (
                Runtime {
                    state: RuntimeState::Ready { lib_handle, api_version },
                    loads: (rt.loads + 1) as u64,
                },
                Result::Ok(()),
            )
        } else {
            (
                Runtime { state: RuntimeState::Uninitialized, loads: (rt.loads + 1) as u64 },
                Result::Err(
                    OrsError::Initialization(
                        InitFailure::VersionMismatch {
                            expected: ORT_API_VERSION,
                            reported: api_version,
                        },
                    ),
                ),
            )
        },
        LoadOutcome::Failed => (
            Runtime { state: RuntimeState::Uninitialized, ..rt },
            Result::Err(OrsError::Initialization(InitFailure::LoadFailed)),
        ),
    }
}

/// Adopt the outcome of the load this caller performed.  A library reporting
/// the expected API version makes the table `Ready`; a version mismatch or
/// a failed load is reported to this caller and the state returns to
/// `Uninitialized`, so resolution can be retried — it never sticks in a
/// failed state.
pub fn complete_initialize(rt: &mut Runtime, outcome: LoadOutcome) -> (r: Result<(), OrsError>)
    requires
        old(rt).spec_is_resolving(),
        old(rt).loads < u64::MAX,
    ensures
        (*final(rt), r) == spec_complete_initialize(*old(rt), outcome),
{
    match outcome {
        LoadOutcome::Loaded { lib_handle, api_version } => {
            if api_version == ORT_API_VERSION {
                rt.loads = rt.loads + 1;
                rt.state = RuntimeState::Ready { lib_handle, api_version };
                Result::Ok(())
            } else {
                rt.loads = rt.loads + 1;
                rt.state = RuntimeState::Uninitialized;
                Result::Err(
                    OrsError::Initialization(
                        InitFailure::VersionMismatch {
                            expected: ORT_API_VERSION,
                            reported: api_version,
                        },
                    ),
                )
            }
        },
        LoadOutcome::Failed => {
            rt.state = RuntimeState::Uninitialized;
            Result::Err(OrsError::Initialization(InitFailure::LoadFailed))
        },
    }
}

/// What one whole initialization call does from a quiescent state.
pub open spec fn spec_initialize_runtime(rt: Runtime, outcome: LoadOutcome) -> (
    Runtime,
    Result<(), OrsError>,
) {
    if rt.spec_is_ready() {
        (rt, Result::Ok(()))
    } else {
        spec_complete_initialize(Runtime { state: RuntimeState::Resolving, ..rt }, outcome)
    }
}

/// Initialize the runtime in one step.  If the table is already resolved
/// this returns at once, adopts nothing, and changes nothing — calling it
/// again is a no-op.  Otherwise the load the embedder performed (whose
/// outcome is `outcome`) is adopted as `complete_initialize` would.
pub fn initialize_runtime(rt: &mut Runtime, outcome: LoadOutcome) -> (r: Result<(), OrsError>)
    requires
        !old(rt).spec_is_resolving(),
        old(rt).loads < u64::MAX,
    ensures
        (*final(rt), r) == spec_initialize_runtime(*old(rt), outcome),
        old(rt).spec_is_ready() ==> *final(rt) == *old(rt) && r is Ok,
{
    match begin_initialize(rt) {
        InitAction::UseExisting => Result::Ok(()),
        InitAction::PerformLoad => complete_initialize(rt, outcome),
        // The caller holds the resolver exclusively and it was not
        // resolving, so no load can be in flight.
        InitAction::Wait => vstd::pervasive::unreached(),
    }
}

/// Unload the native library and return to the uninitialized state.  A
/// resolver that was never initialized is left as it is; the ordering
/// invariant — the library's code must outlive every other native handle —
/// is carried by the caller-supplied proof that the environment is down.
pub fn drop_lib(rt: &mut Runtime, env: &crate::env::Environment, probe: &mut ReleaseProbe) -> (r:
    Result<(), OrsError>)
    requires
        !old(rt).spec_is_resolving(),
        !env.spec_is_initialized(),
        env.live_sessions == 0,
        old(probe).count < u64::MAX,
    ensures
        final(rt).state is Uninitialized,
        final(rt).loads == old(rt).loads,
        old(rt).spec_is_ready() ==> final(probe).count == old(probe).count + 1,
        !old(rt).spec_is_ready() ==> final(probe).count == old(probe).count && *final(rt) == *old(
            rt,
        ),
        r is Ok,
{
    match rt.state {
        RuntimeState::Ready { .. } => {
            rt.state = RuntimeState::Uninitialized;
            probe.count = probe.count + 1;
            Result::Ok(())
        },
        _ => Result::Ok(()),
    }
}

/// Idempotence of initialization: once one call has succeeded, any further
/// initialization call returns success, observes the same resolved table
/// (the same handle and version), and adopts no further native load.
pub proof fn lemma_initialize_runtime_idempotent(
    rt: Runtime,
    first: LoadOutcome,
    second: LoadOutcome,
)
    requires
        spec_initialize_runtime(rt, first).1 is Ok,
    ensures
        spec_initialize_runtime(spec_initialize_runtime(rt, first).0, second)
            == (spec_initialize_runtime(rt, first).0, Result::<(), OrsError>::Ok(())),
{
}

/// A successful initialization from scratch adopts exactly one native load.
pub proof fn lemma_initialize_runtime_single_load(rt: Runtime, outcome: LoadOutcome)
    requires
        !rt.spec_is_ready(),
        rt.loads < u64::MAX,
        spec_initialize_runtime(rt, outcome).1 is Ok,
    ensures
        spec_initialize_runtime(rt, outcome).0.loads == rt.loads + 1,
        spec_initialize_runtime(rt, outcome).0.spec_is_ready(),
{
}

} // verus!
