//! The process-wide execution environment.
//!
//! The native runtime has one global context handle — logging and threading
//! defaults live in it — created lazily and exactly once.  Every session
//! holds a non-owning reference to it, so the environment must exist before
//! any session is built and may be shut down only when no session remains
//! alive.  The `live_sessions` count makes that ordering rule a checked
//! precondition rather than a comment, and `creations` counts the native
//! constructions actually performed, so idempotence of initialization is
//! observable.

use vstd::prelude::*;

use crate::api::Runtime;
use crate::error::OrsError;
use crate::log::LoggingLevel;
use crate::status::spec_reply_ok;
use crate::status::spec_reply_release_delta;
use crate::status::spec_check;
use crate::status::CallReply;
use crate::status::ReleaseProbe;
use crate::status::check_status;

verus! {

/// Where the environment stands.
#[derive(Debug)]
pub enum EnvState {
    /// No native environment exists.
    Uninitialized,
    /// The native environment handle, immutable until shutdown, and the
    /// minimum log level it was created with.
    Ready { handle: usize, log_level: LoggingLevel },
}

/// The one process-wide environment and its bookkeeping.
#[derive(Debug)]
pub struct Environment {
    pub state: EnvState,
    /// How many sessions currently reference this environment.  Shutdown
    /// requires this to be zero.
    pub live_sessions: usize,
    /// How many native environment constructions have been performed.
    pub creations: u64,
}

/// What a caller asking for the environment must do next.
#[derive(Debug, PartialEq, Eq, Structural)]
pub enum EnvAction {
    /// The environment already exists; use it.  No native work happens.
    UseExisting,
    /// Create the native environment and report the reply back.
    PerformCreate,
}

impl Environment {
    /// An environment that has not been created yet.
    pub fn new() -> (env: Environment)
        ensures
            env.state is Uninitialized,
            env.live_sessions == 0,
            env.creations == 0,
    {
        Environment { state: EnvState::Uninitialized, live_sessions: 0, creations: 0 }
    }

    /// Whether the native environment exists.
    pub open spec fn spec_is_initialized(&self) -> bool {
        self.state is Ready
    }

    /// Whether the native environment exists.
    pub fn is_initialized(&self) -> (r: bool)
        ensures
            r == self.spec_is_initialized(),
    {
        match self.state {
            EnvState::Ready { .. } => true,
            EnvState::Uninitialized => false,
        }
    }

    /// What `init_action` decides for each state.
    pub open spec fn spec_init_action(&self, rt: Runtime) -> Result<EnvAction, OrsError> {
        if !rt.spec_is_ready() {
            Result::Err(OrsError::NotInitialized)
        } else if self.spec_is_initialized() {
            Result::Ok(EnvAction::UseExisting)
        } else {
            Result::Ok(EnvAction::PerformCreate)
        }
    }

    /// Ask for the environment.  Creating it dispatches through the API
    /// table, so the resolver must be ready first — before that, the answer
    /// is `NotInitialized` and no ABI call is reachable.  Once the
    /// environment exists every caller is told to use it; only the first
    /// is told to create.
    pub fn init_action(&self, rt: &Runtime) -> (r: Result<EnvAction, OrsError>)
        ensures
            r == self.spec_init_action(*rt),
    {
        if !rt.is_ready() {
            Result::Err(OrsError::NotInitialized)
        } else if self.is_initialized() {
            Result::Ok(EnvAction::UseExisting)
        } else {
            Result::Ok(EnvAction::PerformCreate)
        }
    }

    /// Adopt the reply of the native environment construction this caller
    /// performed with the given minimum log level (the embedder hands the
    /// native call its log callback alongside).  On success the handle
    /// becomes the process-wide environment; on failure the status is
    /// translated and released and the state stays uninitialized.
    pub fn complete_init(
        &mut self,
        log_level: LoggingLevel,
        reply: CallReply,
        probe: &mut ReleaseProbe,
    ) -> (r: Result<usize, OrsError>)
        requires
            !old(self).spec_is_initialized(),
            old(self).creations < u64::MAX,
            old(probe).count < u64::MAX,
        ensures
            final(probe).count == old(probe).count + spec_reply_release_delta(reply),
            r is Ok <==> spec_reply_ok(reply),
            r matches Ok(h) ==> h == reply.handle,
            spec_reply_ok(reply) ==> *final(self) == (Environment {
                state: EnvState::Ready { handle: reply.handle, log_level },
                creations: (old(self).creations + 1) as u64,
                ..*old(self)
            }),
            !spec_reply_ok(reply) ==> *final(self) == *old(self) && Result::<(), OrsError>::Err(
                r->Err_0,
            ) == spec_check(reply.status),
    {
        match check_status(reply.status, probe) {
            Result::Ok(()) => {
                self.state = EnvState::Ready { handle: reply.handle, log_level };
                self.creations = self.creations + 1;
                Result::Ok(reply.handle)
            },
            Result::Err(e) => Result::Err(e),
        }
    }

    /// Release the native environment.  Safe only when no session still
    /// references it — shutting down under a live session would make every
    /// later ABI call on that session undefined behaviour, so outstanding
    /// sessions are a hard precondition failure.  Shutting down an
    /// environment that was never created is a no-op, and afterwards the
    /// state is uninitialized again, so a fresh initialization is possible.
    pub fn shutdown(&mut self, probe: &mut ReleaseProbe)
        requires
            old(self).live_sessions == 0,
            old(probe).count < u64::MAX,
        ensures
            final(self).state is Uninitialized,
            final(self).live_sessions == 0,
            final(self).creations == old(self).creations,
            old(self).spec_is_initialized() ==> final(probe).count == old(probe).count + 1,
            !old(self).spec_is_initialized() ==> final(probe).count == old(probe).count,
    {
        match self.state {
            EnvState::Ready { .. } => {
                self.state = EnvState::Uninitialized;
                probe.count = probe.count + 1;
            },
            EnvState::Uninitialized => {},
        }
    }
}

/// The environment handle, for dispatching session creation across the ABI.
pub fn get_env_ptr(env: &Environment) -> (r: Result<usize, OrsError>)
    ensures
        r is Ok <==> env.spec_is_initialized(),
        r matches Ok(h) ==> env.state matches EnvState::Ready { handle, .. } && h == handle,
        r is Err ==> r matches Err(OrsError::NotInitialized),
{
    match env.state {
        EnvState::Ready { handle, .. } => Result::Ok(handle),
        EnvState::Uninitialized => Result::Err(OrsError::NotInitialized),
    }
}

/// Idempotence of environment initialization: once the environment exists,
/// every further request is answered with the existing handle — no caller
/// is told to construct again, so exactly one native construction underlies
/// any number of requests.
pub proof fn lemma_env_init_idempotent(env: Environment, rt: Runtime)
    requires
        rt.spec_is_ready(),
        env.spec_is_initialized(),
    ensures
        env.spec_init_action(rt) == Result::<EnvAction, OrsError>::Ok(EnvAction::UseExisting),
{
}

} // verus!
