//! Session construction and inference: the builder state machine, the
//! immutable session with its recorded schema, and the validation that
//! guards the synchronous run call.
//!
//! A builder is configured through consuming methods — each takes the
//! builder by value and returns it by value, so a partially configured
//! builder can never be used from two code paths at once.  The two terminal
//! transitions (`build_with_model_from_file`, `build_with_model_in_momory`)
//! require the environment to be initialized and, for a file, the file to
//! exist; only then do they yield a [`PendingSession`], the licence to make
//! the native create-session call.  Adopting that call's reply records the
//! input and output schemas once, at construction; they never change
//! afterwards.

use vstd::prelude::*;

use crate::config::SessionExecutionMode;
use crate::config::SessionGraphOptimizationLevel;
use crate::env::Environment;
use crate::error::OrsError;
use crate::session_io::RawIoInfo;
use crate::session_io::SessionInputInfo;
use crate::session_io::SessionOutputInfo;
use crate::session_io::get_session_inputs;
use crate::session_io::get_session_outputs;
use crate::session_io::input_info_matches;
use crate::session_io::output_info_matches;
use crate::status::spec_reply_ok;
use crate::status::spec_reply_release_delta;
use crate::status::spec_check;
use crate::status::spec_release_delta;
use crate::status::CallReply;
use crate::status::ReleaseProbe;
use crate::status::Status;
use crate::status::check_status;
use crate::tensor::Tensor;
use crate::types::ElementType;

verus! {

/// The configuration a builder has recorded so far.  A `None` or `false`
/// field means the native default is kept.
#[derive(Debug, Clone, Copy)]
pub struct SessionConfig {
    pub intra_threads: Option<i32>,
    pub inter_threads: Option<i32>,
    pub opt_level: Option<SessionGraphOptimizationLevel>,
    pub execution_mode: Option<SessionExecutionMode>,
    pub cpu_mem_arena: bool,
    pub mem_pattern: bool,
}

impl SessionConfig {
    /// The configuration that keeps every native default.
    pub open spec fn spec_default() -> SessionConfig {
        SessionConfig {
            intra_threads: Option::None,
            inter_threads: Option::None,
            opt_level: Option::None,
            execution_mode: Option::None,
            cpu_mem_arena: false,
            mem_pattern: false,
        }
    }
}

/// A session being configured: the native options handle and the recorded
/// configuration.  Every method consumes the builder and returns it, so
/// configuration is a linear state machine ending in one of the two build
/// transitions.
#[derive(Debug)]
pub struct SessionBuilder {
    pub session_options_ptr: usize,
    pub config: SessionConfig,
}

/// Where the model for a pending session comes from.
#[derive(Debug)]
pub enum ModelSource {
    /// A model file, read by the native runtime from its path.
    File,
    /// An in-memory model: the byte length of the buffer whose address and
    /// length are passed across the ABI without copying.
    Memory { len: usize },
}

/// A builder that has passed the pre-ABI checks of a terminal build
/// transition: the request for the native create-session call.  This value
/// is the only way to adopt a [`BuildReply`], so a build that failed its
/// checks can never reach the ABI boundary.
#[derive(Debug)]
pub struct PendingSession {
    pub session_options_ptr: usize,
    pub config: SessionConfig,
    pub source: ModelSource,
}

/// What the native create-session call and the follow-up introspection
/// handed back: the session reply, the default-allocator reply, the
/// allocator's memory-info reply, and the raw input and output schemas.
#[derive(Debug)]
pub struct BuildReply {
    pub session: CallReply,
    pub allocator: CallReply,
    pub mem_info: CallReply,
    pub inputs: Vec<RawIoInfo>,
    pub outputs: Vec<RawIoInfo>,
}

/// An immutable, runnable instance of one model: the native session handle,
/// the allocator and memory-info it was built with (both borrowed from the
/// native runtime, not owned), and the input and output schemas recorded at
/// construction in the positional order the run call expects.
#[derive(Debug)]
pub struct Session {
    pub session_ptr: usize,
    pub allocator: usize,
    pub mem_info: usize,
    pub input_info: Vec<SessionInputInfo>,
    pub output_info: Vec<SessionOutputInfo>,
}

impl SessionBuilder {
    /// Adopt the reply of the native create-session-options call.  On
    /// success the builder starts with every native default kept.
    pub fn new(reply: CallReply, probe: &mut ReleaseProbe) -> (r: Result<SessionBuilder, OrsError>)
        requires
            old(probe).count < u64::MAX,
        ensures
            final(probe).count == old(probe).count + spec_reply_release_delta(reply),
            r is Ok <==> spec_reply_ok(reply),
            r matches Ok(b) ==> b == (SessionBuilder {
                session_options_ptr: reply.handle,
                config: SessionConfig::spec_default(),
            }),
            r matches Err(e) ==> Result::<(), OrsError>::Err(e) == spec_check(reply.status),
    {
        match check_status(reply.status, probe) {
            Result::Ok(()) => Result::Ok(
                SessionBuilder {
                    session_options_ptr: reply.handle,
                    config: SessionConfig {
                        intra_threads: Option::None,
                        inter_threads: Option::None,
                        opt_level: Option::None,
                        execution_mode: Option::None,
                        cpu_mem_arena: false,
                        mem_pattern: false,
                    },
                },
            ),
            Result::Err(e) => Result::Err(e),
        }
    }

    /// Record the number of threads used to parallelize the execution
    /// within nodes.
    pub fn intra_number_threads(self, num_threads: i32) -> (r: Result<SessionBuilder, OrsError>)
        ensures
            r matches Ok(b) && b == (SessionBuilder {
                config: SessionConfig { intra_threads: Option::Some(num_threads), ..self.config },
                ..self
            }),
    {
        Result::Ok(
            SessionBuilder {
                config: SessionConfig { intra_threads: Option::Some(num_threads), ..self.config },
                ..self
            },
        )
    }

    /// Record the number of threads used to parallelize the execution
    /// across nodes.
    pub fn inter_number_threads(self, num_threads: i32) -> (r: Result<SessionBuilder, OrsError>)
        ensures
            r matches Ok(b) && b == (SessionBuilder {
                config: SessionConfig { inter_threads: Option::Some(num_threads), ..self.config },
                ..self
            }),
    {
        Result::Ok(
            SessionBuilder {
                config: SessionConfig { inter_threads: Option::Some(num_threads), ..self.config },
                ..self
            },
        )
    }

    /// Record the graph optimization level.
    pub fn graph_optimization_level(self, opt_level: SessionGraphOptimizationLevel) -> (r: Result<
        SessionBuilder,
        OrsError,
    >)
        ensures
            r matches Ok(b) && b == (SessionBuilder {
                config: SessionConfig { opt_level: Option::Some(opt_level), ..self.config },
                ..self
            }),
    {
        Result::Ok(
            SessionBuilder {
                config: SessionConfig { opt_level: Option::Some(opt_level), ..self.config },
                ..self
            },
        )
    }

    /// Record whether the graph's operators run sequentially or in
    /// parallel.
    pub fn execution_mode(self, execution_mode: SessionExecutionMode) -> (r: Result<
        SessionBuilder,
        OrsError,
    >)
        ensures
            r matches Ok(b) && b == (SessionBuilder {
                config: SessionConfig {
                    execution_mode: Option::Some(execution_mode),
                    ..self.config
                },
                ..self
            }),
    {
        Result::Ok(
            SessionBuilder {
                config: SessionConfig {
                    execution_mode: Option::Some(execution_mode),
                    ..self.config
                },
                ..self
            },
        )
    }

    /// Enable the memory arena on CPU.  Passing `false` records nothing:
    /// the native default is kept.
    pub fn cpu_mem_arena_enabled(self, cpu_mem_arena_enabled: bool) -> (r: Result<
        SessionBuilder,
        OrsError,
    >)
        ensures
            r matches Ok(b) && b == (SessionBuilder {
                config: SessionConfig {
                    cpu_mem_arena: self.config.cpu_mem_arena || cpu_mem_arena_enabled,
                    ..self.config
                },
                ..self
            }),
    {
        if cpu_mem_arena_enabled {
            Result::Ok(
                SessionBuilder {
                    config: SessionConfig { cpu_mem_arena: true, ..self.config },
                    ..self
                },
            )
        } else {
            Result::Ok(self)
        }
    }

    /// Enable the memory-pattern optimization.  Passing `false` records
    /// nothing: the native default is kept.
    pub fn mem_pattern_enabled(self, mem_pattern_enabled: bool) -> (r: Result<
        SessionBuilder,
        OrsError,
    >)
        ensures
            r matches Ok(b) && b == (SessionBuilder {
                config: SessionConfig {
                    mem_pattern: self.config.mem_pattern || mem_pattern_enabled,
                    ..self.config
                },
                ..self
            }),
    {
        if mem_pattern_enabled {
            Result::Ok(
                SessionBuilder {
                    config: SessionConfig { mem_pattern: true, ..self.config },
                    ..self
                },
            )
        } else {
            Result::Ok(self)
        }
    }

    /// Terminal transition: build from a model file.  The environment must
    /// already be initialized — before it is, this fails with
    /// `NotInitialized` and can never reach the ABI boundary — and the
    /// file must exist, checked by the embedder before any native call.
    pub fn build_with_model_from_file(self, env: &Environment, path_exists: bool) -> (r: Result<
        PendingSession,
        OrsError,
    >)
        ensures
            r is Ok <==> env.spec_is_initialized() && path_exists,
            !env.spec_is_initialized() ==> r matches Err(OrsError::NotInitialized),
            env.spec_is_initialized() && !path_exists ==> r matches Err(OrsError::ModelNotFound),
            r matches Ok(p) ==> p == (PendingSession {
                session_options_ptr: self.session_options_ptr,
                config: self.config,
                source: ModelSource::File,
            }),
    {
        if !env.is_initialized() {
            Result::Err(OrsError::NotInitialized)
        } else if !path_exists {
            Result::Err(OrsError::ModelNotFound)
        } else {
            Result::Ok(
                PendingSession {
                    session_options_ptr: self.session_options_ptr,
                    config: self.config,
                    source: ModelSource::File,
                },
            )
        }
    }

    /// Terminal transition: build from an in-memory model of `model_len`
    /// bytes.  The environment must already be initialized — before it is,
    /// this fails with `NotInitialized` and can never reach the ABI
    /// boundary.
    pub fn build_with_model_in_momory(self, env: &Environment, model_len: usize) -> (r: Result<
        PendingSession,
        OrsError,
    >)
        ensures
            r is Ok <==> env.spec_is_initialized(),
            !env.spec_is_initialized() ==> r matches Err(OrsError::NotInitialized),
            r matches Ok(p) ==> p == (PendingSession {
                session_options_ptr: self.session_options_ptr,
                config: self.config,
                source: ModelSource::Memory { len: model_len },
            }),
    {
        if !env.is_initialized() {
            Result::Err(OrsError::NotInitialized)
        } else {
            Result::Ok(
                PendingSession {
                    session_options_ptr: self.session_options_ptr,
                    config: self.config,
                    source: ModelSource::Memory { len: model_len },
                },
            )
        }
    }
}

/// How many native status releases adopting a build reply performs: the
/// replies are checked in order and checking stops at the first failure.
pub open spec fn spec_build_releases(reply: BuildReply) -> nat {
    if !spec_reply_ok(reply.session) {
        spec_reply_release_delta(reply.session)
    } else if !spec_reply_ok(reply.allocator) {
        spec_reply_release_delta(reply.session) + spec_reply_release_delta(reply.allocator)
    } else {
        spec_reply_release_delta(reply.session) + spec_reply_release_delta(reply.allocator)
            + spec_reply_release_delta(reply.mem_info)
    }
}

/// Whether a whole build reply reports success.
pub open spec fn spec_build_ok(reply: BuildReply) -> bool {
    spec_reply_ok(reply.session) && spec_reply_ok(reply.allocator) && spec_reply_ok(reply.mem_info)
}

impl PendingSession {
    /// Adopt what the native create-session call and the follow-up
    /// introspection handed back.  On success the session owns the new
    /// handle, keeps the allocator and its memory-info, records both
    /// schemas in positional order, and counts as one more live session on
    /// the environment.  The first failing status is translated and
    /// released, and the environment is left unchanged.
    pub fn complete(self, env: &mut Environment, reply: BuildReply, probe: &mut ReleaseProbe) -> (r:
        Result<Session, OrsError>)
        requires
            old(env).spec_is_initialized(),
            old(env).live_sessions < usize::MAX,
            old(probe).count + 3 <= u64::MAX,
        ensures
            final(probe).count == old(probe).count + spec_build_releases(reply),
            r is Ok <==> spec_build_ok(reply),
            r matches Ok(s) ==> {
                &&& s.session_ptr == reply.session.handle
                &&& s.allocator == reply.allocator.handle
                &&& s.mem_info == reply.mem_info.handle
                &&& s.input_info@.len() == reply.inputs@.len()
                &&& forall|i: int|
                    0 <= i < reply.inputs@.len() ==> input_info_matches(
                        #[trigger] s.input_info@[i],
                        reply.inputs@[i],
                    )
                &&& s.output_info@.len() == reply.outputs@.len()
                &&& forall|i: int|
                    0 <= i < reply.outputs@.len() ==> output_info_matches(
                        #[trigger] s.output_info@[i],
                        reply.outputs@[i],
                    )
            },
            spec_build_ok(reply) ==> *final(env) == (Environment {
                live_sessions: (old(env).live_sessions + 1) as usize,
                ..*old(env)
            }),
            !spec_build_ok(reply) ==> *final(env) == *old(env),
            r matches Err(e) ==> Result::<(), OrsError>::Err(e) == (if !spec_reply_ok(reply.session) {
                spec_check(reply.session.status)
            } else if !spec_reply_ok(reply.allocator) {
                spec_check(reply.allocator.status)
            } else {
                spec_check(reply.mem_info.status)
            }),
    {
        let BuildReply { session, allocator, mem_info, inputs, outputs } = reply;
        match check_status(session.status, probe) {
            Result::Ok(()) => {},
            Result::Err(e) => {
                return Result::Err(e);
            },
        }
        match check_status(allocator.status, probe) {
            Result::Ok(()) => {},
            Result::Err(e) => {
                return Result::Err(e);
            },
        }
        match check_status(mem_info.status, probe) {
            Result::Ok(()) => {},
            Result::Err(e) => {
                return Result::Err(e);
            },
        }
        let input_info = get_session_inputs(&inputs);
        let output_info = get_session_outputs(&outputs);
        env.live_sessions = env.live_sessions + 1;
        Result::Ok(
            Session {
                session_ptr: session.handle,
                allocator: allocator.handle,
                mem_info: mem_info.handle,
                input_info,
                output_info,
            },
        )
    }
}

/// Adopt the reply of the native get-default-allocator call.  The returned
/// allocator handle belongs to the native runtime and must never be
/// released by the caller.
pub fn get_default_allocator(reply: CallReply, probe: &mut ReleaseProbe) -> (r: Result<
    usize,
    OrsError,
>)
    requires
        old(probe).count < u64::MAX,
    ensures
        final(probe).count == old(probe).count + spec_reply_release_delta(reply),
        r is Ok <==> spec_reply_ok(reply),
        r matches Ok(h) ==> h == reply.handle,
        r matches Err(e) ==> Result::<(), OrsError>::Err(e) == spec_check(reply.status),
{
    match check_status(reply.status, probe) {
        Result::Ok(()) => Result::Ok(reply.handle),
        Result::Err(e) => Result::Err(e),
    }
}

/// Adopt the reply of the native allocator-get-info call made on an
/// allocator handle.  The returned memory-info belongs to the allocator
/// and is not owned by the caller.
pub fn get_allocator_mem_info(allocator: usize, reply: CallReply, probe: &mut ReleaseProbe) -> (r:
    Result<usize, OrsError>)
    requires
        old(probe).count < u64::MAX,
    ensures
        final(probe).count == old(probe).count + spec_reply_release_delta(reply),
        r is Ok <==> spec_reply_ok(reply),
        r matches Ok(h) ==> h == reply.handle,
        r matches Err(e) ==> Result::<(), OrsError>::Err(e) == spec_check(reply.status),
{
    let _ = allocator;
    match check_status(reply.status, probe) {
        Result::Ok(()) => Result::Ok(reply.handle),
        Result::Err(e) => Result::Err(e),
    }
}

/// Resolve the default allocator and derive its memory-info, adopting the
/// two native replies in order; checking stops at the first failure.
pub fn get_default_memory_info(
    allocator_reply: CallReply,
    mem_info_reply: CallReply,
    probe: &mut ReleaseProbe,
) -> (r: Result<usize, OrsError>)
    requires
        old(probe).count + 2 <= u64::MAX,
    ensures
        r is Ok <==> spec_reply_ok(allocator_reply) && spec_reply_ok(mem_info_reply),
        r matches Ok(h) ==> h == mem_info_reply.handle,
        !spec_reply_ok(allocator_reply) ==> final(probe).count == old(probe).count
            + spec_reply_release_delta(allocator_reply),
        spec_reply_ok(allocator_reply) ==> final(probe).count == old(probe).count
            + spec_reply_release_delta(allocator_reply) + spec_reply_release_delta(mem_info_reply),
{
    let allocator = match get_default_allocator(allocator_reply, probe) {
        Result::Ok(h) => h,
        Result::Err(e) => {
            return Result::Err(e);
        },
    };
    get_allocator_mem_info(allocator, mem_info_reply, probe)
}

/// Whether a tensor's shape fits a recorded schema shape: same rank, and
/// every fixed dimension equal; a symbolic ("unknown") dimension accepts
/// any size.
pub open spec fn spec_dims_match(schema: Seq<Option<i64>>, shape: Seq<i64>) -> bool {
    &&& schema.len() == shape.len()
    &&& forall|i: int|
        0 <= i < schema.len() ==> (#[trigger] schema[i] matches Some(d) ==> shape[i] == d)
}

/// Whether a tensor fits one input slot: element types equal and shapes
/// matching.
pub open spec fn spec_tensor_matches_input(t: Tensor, info: SessionInputInfo) -> bool {
    t.element_type == info.input_type && spec_dims_match(info.input_dim@, t.shape@)
}

/// Whether a tensor fits one output slot.
pub open spec fn spec_tensor_matches_output(t: Tensor, info: SessionOutputInfo) -> bool {
    t.element_type == info.output_type && spec_dims_match(info.output_dim@, t.shape@)
}

/// The local error reported for a tensor that does not fit a slot: a type
/// conflict names both element types; a shape conflict names the tensor's
/// element count, with no single expected count (the schema may hold
/// symbolic dimensions).
pub open spec fn spec_slot_error(t: Tensor, ty: ElementType, dims: Seq<Option<i64>>) -> Option<
    OrsError,
> {
    if t.element_type != ty {
        Option::Some(OrsError::TypeMismatch { expected: ty, actual: t.element_type })
    } else if !spec_dims_match(dims, t.shape@) {
        Option::Some(
            OrsError::ShapeMismatch {
                expected_elements: Option::None,
                actual_elements: t.element_count,
            },
        )
    } else {
        Option::None
    }
}

/// The first input slot conflict at or after position `i`, in slot order.
pub open spec fn spec_first_input_error(
    tensors: Seq<Tensor>,
    infos: Seq<SessionInputInfo>,
    i: int,
) -> Option<OrsError>
    decreases infos.len() - i,
{
    if i < 0 || i >= infos.len() || i >= tensors.len() {
        Option::None
    } else {
        match spec_slot_error(tensors[i], infos[i].input_type, infos[i].input_dim@) {
            Option::Some(e) => Option::Some(e),
            Option::None => spec_first_input_error(tensors, infos, i + 1),
        }
    }
}

/// The first output slot conflict at or after position `i`, in slot order.
pub open spec fn spec_first_output_error(
    tensors: Seq<Tensor>,
    infos: Seq<SessionOutputInfo>,
    i: int,
) -> Option<OrsError>
    decreases infos.len() - i,
{
    if i < 0 || i >= infos.len() || i >= tensors.len() {
        Option::None
    } else {
        match spec_slot_error(tensors[i], infos[i].output_type, infos[i].output_dim@) {
            Option::Some(e) => Option::Some(e),
            Option::None => spec_first_output_error(tensors, infos, i + 1),
        }
    }
}

/// No input conflict is reported exactly when every tensor fits its slot.
pub proof fn lemma_input_validation_complete(
    tensors: Seq<Tensor>,
    infos: Seq<SessionInputInfo>,
    i: int,
)
    requires
        0 <= i <= infos.len(),
        infos.len() == tensors.len(),
    ensures
        spec_first_input_error(tensors, infos, i) is None <==> forall|j: int|
            i <= j < infos.len() ==> spec_tensor_matches_input(#[trigger] tensors[j], infos[j]),
    decreases infos.len() - i,
{
    if i < infos.len() {
        lemma_input_validation_complete(tensors, infos, i + 1);
    }
}

/// No output conflict is reported exactly when every tensor fits its slot.
pub proof fn lemma_output_validation_complete(
    tensors: Seq<Tensor>,
    infos: Seq<SessionOutputInfo>,
    i: int,
)
    requires
        0 <= i <= infos.len(),
        infos.len() == tensors.len(),
    ensures
        spec_first_output_error(tensors, infos, i) is None <==> forall|j: int|
            i <= j < infos.len() ==> spec_tensor_matches_output(#[trigger] tensors[j], infos[j]),
    decreases infos.len() - i,
{
    if i < infos.len() {
        lemma_output_validation_complete(tensors, infos, i + 1);
    }
}

/// What validating a whole run request yields, in order: the tensor counts
/// must equal the schema lengths, then every input and every output slot
/// is checked positionally.
pub open spec fn spec_validate_run(session: Session, inputs: Seq<Tensor>, outputs: Seq<
    Tensor,
>) -> Result<(), OrsError> {
    if inputs.len() != session.input_info@.len() {
        Result::Err(
            OrsError::ShapeMismatch {
                expected_elements: Option::Some(session.input_info@.len() as usize),
                actual_elements: inputs.len() as usize,
            },
        )
    } else if outputs.len() != session.output_info@.len() {
        Result::Err(
            OrsError::ShapeMismatch {
                expected_elements: Option::Some(session.output_info@.len() as usize),
                actual_elements: outputs.len() as usize,
            },
        )
    } else {
        match spec_first_input_error(inputs, session.input_info@, 0) {
            Option::Some(e) => Result::Err(e),
            Option::None => match spec_first_output_error(outputs, session.output_info@, 0) {
                Option::Some(e) => Result::Err(e),
                Option::None => Result::Ok(()),
            },
        }
    }
}

/// The positional name lists the native run call takes: one name per input
/// and per output, in the session's recorded order.
#[derive(Debug)]
pub struct RunPlan {
    pub input_names: Vec<String>,
    pub output_names: Vec<String>,
}

/// Validate a run request against the session's schema, before anything
/// crosses the ABI.  Inputs and outputs are matched to their slots
/// positionally; a count, type or shape conflict is reported as a local
/// error and nothing reaches the native layer.  On success the returned
/// plan carries the positional input and output names for the native run
/// call.
pub fn prepare_run(session: &Session, inputs: &Vec<Tensor>, outputs: &Vec<Tensor>) -> (r: Result<
    RunPlan,
    OrsError,
>)
    ensures
        r is Ok <==> spec_validate_run(*session, inputs@, outputs@) is Ok,
        r is Ok <==> {
            &&& inputs@.len() == session.input_info@.len()
            &&& outputs@.len() == session.output_info@.len()
            &&& forall|i: int|
                0 <= i < inputs@.len() ==> spec_tensor_matches_input(
                    #[trigger] inputs@[i],
                    session.input_info@[i],
                )
            &&& forall|i: int|
                0 <= i < outputs@.len() ==> spec_tensor_matches_output(
                    #[trigger] outputs@[i],
                    session.output_info@[i],
                )
        },
        r matches Err(e) ==> Result::<(), OrsError>::Err(e) == spec_validate_run(
            *session,
            inputs@,
            outputs@,
        ),
        r matches Ok(plan) ==> {
            &&& plan.input_names@.len() == session.input_info@.len()
            &&& forall|i: int|
                0 <= i < session.input_info@.len() ==> #[trigger] plan.input_names@[i]
                    == session.input_info@[i].name
            &&& plan.output_names@.len() == session.output_info@.len()
            &&& forall|i: int|
                0 <= i < session.output_info@.len() ==> #[trigger] plan.output_names@[i]
                    == session.output_info@[i].name
        },
{
    if inputs.len() != session.input_info.len() {
        return Result::Err(
            OrsError::ShapeMismatch {
                expected_elements: Option::Some(session.input_info.len()),
                actual_elements: inputs.len(),
            },
        );
    }
    if outputs.len() != session.output_info.len() {
        return Result::Err(
            OrsError::ShapeMismatch {
                expected_elements: Option::Some(session.output_info.len()),
                actual_elements: outputs.len(),
            },
        );
    }
    let mut i: usize = 0;
    while i < inputs.len()
        invariant
            i <= inputs.len(),
            inputs@.len() == session.input_info@.len(),
            outputs@.len() == session.output_info@.len(),
            spec_first_input_error(inputs@, session.input_info@, 0) == spec_first_input_error(
                inputs@,
                session.input_info@,
                i as int,
            ),
        decreases inputs.len() - i,
    {
        let t = &inputs[i];
        let info = &session.input_info[i];
        if t.element_type != info.input_type {
            return Result::Err(
                OrsError::TypeMismatch { expected: info.input_type, actual: t.element_type },
            );
        }
        if !dims_fit(&info.input_dim, &t.shape) {
            return Result::Err(
                OrsError::ShapeMismatch {
                    expected_elements: Option::None,
                    actual_elements: t.element_count,
                },
            );
        }
        i = i + 1;
    }
    let mut i: usize = 0;
    while i < outputs.len()
        invariant
            i <= outputs.len(),
            inputs@.len() == session.input_info@.len(),
            outputs@.len() == session.output_info@.len(),
            spec_first_input_error(inputs@, session.input_info@, 0) is None,
            spec_first_output_error(outputs@, session.output_info@, 0) == spec_first_output_error(
                outputs@,
                session.output_info@,
                i as int,
            ),
        decreases outputs.len() - i,
    {
        let t = &outputs[i];
        let info = &session.output_info[i];
        if t.element_type != info.output_type {
            return Result::Err(
                OrsError::TypeMismatch { expected: info.output_type, actual: t.element_type },
            );
        }
        if !dims_fit(&info.output_dim, &t.shape) {
            return Result::Err(
                OrsError::ShapeMismatch {
                    expected_elements: Option::None,
                    actual_elements: t.element_count,
                },
            );
        }
        i = i + 1;
    }
    proof {
        lemma_input_validation_complete(inputs@, session.input_info@, 0);
        lemma_output_validation_complete(outputs@, session.output_info@, 0);
    }
    let input_names = clone_input_names(&session.input_info);
    let output_names = clone_output_names(&session.output_info);
    Result::Ok(RunPlan { input_names, output_names })
}

/// Whether a tensor shape fits a schema shape, executably.
fn dims_fit(schema: &Vec<Option<i64>>, shape: &Vec<i64>) -> (r: bool)
    ensures
        r == spec_dims_match(schema@, shape@),
{
    if schema.len() != shape.len() {
        return false;
    }
    let mut i: usize = 0;
    while i < schema.len()
        invariant
            i <= schema.len(),
            schema@.len() == shape@.len(),
            forall|j: int|
                0 <= j < i ==> (#[trigger] schema@[j] matches Some(d) ==> shape@[j] == d),
        decreases schema.len() - i,
    {
        match schema[i] {
            Option::Some(d) => {
                if shape[i] != d {
                    return false;
                }
            },
            Option::None => {},
        }
        i = i + 1;
    }
    true
}

fn clone_input_names(infos: &Vec<SessionInputInfo>) -> (names: Vec<String>)
    ensures
        names@.len() == infos@.len(),
        forall|i: int| 0 <= i < infos@.len() ==> #[trigger] names@[i] == infos@[i].name,
{
    let mut names: Vec<String> = Vec::new();
    let mut i: usize = 0;
    while i < infos.len()
        invariant
            i <= infos.len(),
            names@.len() == i,
            forall|j: int| 0 <= j < i ==> #[trigger] names@[j] == infos@[j].name,
        decreases infos.len() - i,
    {
        names.push(infos[i].name.clone());
        i = i + 1;
    }
    names
}

fn clone_output_names(infos: &Vec<SessionOutputInfo>) -> (names: Vec<String>)
    ensures
        names@.len() == infos@.len(),
        forall|i: int| 0 <= i < infos@.len() ==> #[trigger] names@[i] == infos@[i].name,
{
    let mut names: Vec<String> = Vec::new();
    let mut i: usize = 0;
    while i < infos.len()
        invariant
            i <= infos.len(),
            names@.len() == i,
            forall|j: int| 0 <= j < i ==> #[trigger] names@[j] == infos@[j].name,
        decreases infos.len() - i,
    {
        names.push(infos[i].name.clone());
        i = i + 1;
    }
    names
}

/// Adopt the status of the native run dispatched with a validated plan.
/// The run is synchronous and single-shot: by the time the status exists
/// the native runtime has completed and written every output in place into
/// the caller-owned buffers.  A failing status is translated with its code
/// and message verbatim and released exactly once.
pub fn run(plan: RunPlan, status: Option<Status>, probe: &mut ReleaseProbe) -> (r: Result<
    (),
    OrsError,
>)
    requires
        old(probe).count < u64::MAX,
    ensures
        r == spec_check(status),
        final(probe).count == old(probe).count + spec_release_delta(status),
{
    let _ = plan;
    check_status(status, probe)
}

impl Session {
    /// What releasing a session leaves behind: the handle nulled, the
    /// recorded schema kept.
    pub open spec fn spec_released(self) -> Session {
        Session { session_ptr: 0, ..self }
    }

    /// How many native releases dropping this session performs: one for a
    /// live handle, none for an already-null one.
    pub open spec fn spec_release_delta(self) -> nat {
        if self.session_ptr != 0 {
            1
        } else {
            0
        }
    }

    /// Release the native session handle and stop counting as a live
    /// session on the environment.  A live handle is freed exactly once; a
    /// null handle is left alone — dropping twice is safe and performs no
    /// second native call.  The allocator and memory-info are borrowed
    /// from the native runtime and are never released here.
    pub fn release(&mut self, env: &mut Environment, probe: &mut ReleaseProbe)
        requires
            old(self).session_ptr != 0 ==> old(env).live_sessions >= 1,
            old(probe).count < u64::MAX,
        ensures
            *final(self) == old(self).spec_released(),
            final(probe).count == old(probe).count + old(self).spec_release_delta(),
            old(self).session_ptr != 0 ==> *final(env) == (Environment {
                live_sessions: (old(env).live_sessions - 1) as usize,
                ..*old(env)
            }),
            old(self).session_ptr == 0 ==> *final(env) == *old(env),
    {
        if self.session_ptr != 0 {
            probe.count = probe.count + 1;
            env.live_sessions = env.live_sessions - 1;
            self.session_ptr = 0;
        }
    }
}

/// Double-free safety: a released session is null, and releasing it again
/// changes nothing, performs no native call, and leaves the environment's
/// live-session count alone.
pub proof fn lemma_session_release_idempotent(s: Session)
    ensures
        s.spec_released().spec_release_delta() == 0,
        s.spec_released().spec_released() == s.spec_released(),
{
}

} // verus!
