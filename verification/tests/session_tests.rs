//! Session construction: the builder state machine, the ordering invariant
//! against the environment, schema round-tripping, run validation, and an
//! end-to-end inference round against a simulated native side.

use ors::api::{initialize_runtime, LoadOutcome, Runtime, ORT_API_VERSION};
use ors::config::{SessionExecutionMode, SessionGraphOptimizationLevel};
use ors::env::{EnvAction, Environment};
use ors::error::OrsError;
use ors::log::LoggingLevel;
use ors::session::{
    get_default_memory_info, prepare_run, run, BuildReply, Session, SessionBuilder,
};
use ors::session_io::RawIoInfo;
use ors::status::{create_status, CallReply, ReleaseProbe};
use ors::tensor::{bind, plan_tensor, plan_tensor_raw, Tensor};
use ors::types::ElementType;

fn ready_world(probe: &mut ReleaseProbe) -> (Runtime, Environment) {
    let mut rt = Runtime::new();
    initialize_runtime(
        &mut rt,
        LoadOutcome::Loaded {
            lib_handle: 0x1000,
            api_version: ORT_API_VERSION,
        },
    )
    .unwrap();
    let mut env = Environment::new();
    match env.init_action(&rt).unwrap() {
        EnvAction::PerformCreate => {
            env.complete_init(
                LoggingLevel::Warning,
                CallReply {
                    status: None,
                    handle: 0x2000,
                },
                probe,
            )
            .unwrap();
        }
        EnvAction::UseExisting => {}
    }
    (rt, env)
}

fn new_builder(probe: &mut ReleaseProbe) -> SessionBuilder {
    SessionBuilder::new(
        CallReply {
            status: None,
            handle: 0x5000,
        },
        probe,
    )
    .unwrap()
}

fn ok_reply(handle: usize) -> CallReply {
    CallReply {
        status: None,
        handle,
    }
}

fn raw(name: &str, element_type: u32, dims: &[i64]) -> RawIoInfo {
    RawIoInfo {
        name: name.to_string(),
        element_type,
        dims: dims.to_vec(),
    }
}

fn two_in_one_out_reply() -> BuildReply {
    BuildReply {
        session: ok_reply(0x6000),
        allocator: ok_reply(0x6100),
        mem_info: ok_reply(0x6200),
        inputs: vec![
            raw("input_ids", 7, &[-1, 9]),
            raw("attention_mask", 1, &[2, 9]),
        ],
        outputs: vec![raw("logits", 1, &[2, 9])],
    }
}

fn build_two_in_one_out(env: &mut Environment, probe: &mut ReleaseProbe) -> Session {
    let builder = new_builder(probe);
    let pending = builder.build_with_model_from_file(env, true).unwrap();
    pending.complete(env, two_in_one_out_reply(), probe).unwrap()
}

#[test]
fn builder_records_each_setting() {
    let mut probe = ReleaseProbe::new();
    let builder = new_builder(&mut probe)
        .intra_number_threads(4)
        .unwrap()
        .inter_number_threads(2)
        .unwrap()
        .graph_optimization_level(SessionGraphOptimizationLevel::All)
        .unwrap()
        .execution_mode(SessionExecutionMode::Parallel)
        .unwrap()
        .cpu_mem_arena_enabled(true)
        .unwrap()
        .mem_pattern_enabled(true)
        .unwrap();
    assert_eq!(builder.config.intra_threads, Some(4));
    assert_eq!(builder.config.inter_threads, Some(2));
    assert!(matches!(
        builder.config.opt_level,
        Some(SessionGraphOptimizationLevel::All)
    ));
    assert!(matches!(
        builder.config.execution_mode,
        Some(SessionExecutionMode::Parallel)
    ));
    assert!(builder.config.cpu_mem_arena);
    assert!(builder.config.mem_pattern);
    // Passing false keeps what is already recorded.
    let builder = builder.cpu_mem_arena_enabled(false).unwrap();
    assert!(builder.config.cpu_mem_arena);
}

#[test]
fn config_tags_match_the_abi() {
    assert_eq!(SessionGraphOptimizationLevel::DisableAll.to_raw(), 0);
    assert_eq!(SessionGraphOptimizationLevel::Basic.to_raw(), 1);
    assert_eq!(SessionGraphOptimizationLevel::Extended.to_raw(), 2);
    assert_eq!(SessionGraphOptimizationLevel::All.to_raw(), 99);
    assert_eq!(SessionExecutionMode::Sequential.to_raw(), 0);
    assert_eq!(SessionExecutionMode::Parallel.to_raw(), 1);
}

#[test]
fn build_before_environment_fails_locally() {
    // The ordering invariant: building a session before the environment is
    // initialized fails with NotInitialized and never reaches the ABI.
    let mut probe = ReleaseProbe::new();
    let env = Environment::new();
    let builder = new_builder(&mut probe);
    assert!(matches!(
        builder.build_with_model_from_file(&env, true),
        Err(OrsError::NotInitialized)
    ));
    let builder = new_builder(&mut probe);
    assert!(matches!(
        builder.build_with_model_in_momory(&env, 1024),
        Err(OrsError::NotInitialized)
    ));
}

#[test]
fn missing_model_file_fails_fast() {
    let mut probe = ReleaseProbe::new();
    let (_rt, env) = ready_world(&mut probe);
    let builder = new_builder(&mut probe);
    assert!(matches!(
        builder.build_with_model_from_file(&env, false),
        Err(OrsError::ModelNotFound)
    ));
}

#[test]
fn test_create_session() {
    let mut probe = ReleaseProbe::new();
    let (_rt, mut env) = ready_world(&mut probe);
    let pending = new_builder(&mut probe)
        .intra_number_threads(4)
        .unwrap()
        .graph_optimization_level(SessionGraphOptimizationLevel::All)
        .unwrap()
        .execution_mode(SessionExecutionMode::Parallel)
        .unwrap()
        .cpu_mem_arena_enabled(true)
        .unwrap()
        .mem_pattern_enabled(true)
        .unwrap()
        .build_with_model_from_file(&env, true)
        .unwrap();
    let session = pending
        .complete(&mut env, two_in_one_out_reply(), &mut probe)
        .unwrap();
    assert_ne!(session.session_ptr, 0);
    assert_eq!(env.live_sessions, 1);
}

#[test]
fn test_session_drop() {
    let mut probe = ReleaseProbe::new();
    let (_rt, mut env) = ready_world(&mut probe);
    {
        let mut session = build_two_in_one_out(&mut env, &mut probe);
        assert_ne!(session.session_ptr, 0);
        session.release(&mut env, &mut probe);
        assert_eq!(session.session_ptr, 0);
        assert_eq!(env.live_sessions, 0);
    }
    let session2 = build_two_in_one_out(&mut env, &mut probe);
    assert_ne!(session2.session_ptr, 0);
}

#[test]
fn session_release_is_idempotent() {
    let mut probe = ReleaseProbe::new();
    let (_rt, mut env) = ready_world(&mut probe);
    let mut session = build_two_in_one_out(&mut env, &mut probe);
    let before = probe.count;
    session.release(&mut env, &mut probe);
    session.release(&mut env, &mut probe);
    assert_eq!(probe.count, before + 1);
    assert_eq!(env.live_sessions, 0);
}

#[test]
fn schema_round_trips_with_unknown_dimensions() {
    // The recorded schema matches the reported names, types and shapes
    // exactly; the -1 sentinel comes back as "unknown", never negative.
    let mut probe = ReleaseProbe::new();
    let (_rt, mut env) = ready_world(&mut probe);
    let session = build_two_in_one_out(&mut env, &mut probe);
    assert_eq!(session.input_info.len(), 2);
    assert_eq!(session.input_info[0].name, "input_ids");
    assert_eq!(session.input_info[0].input_type, ElementType::Int64);
    assert_eq!(session.input_info[0].input_dim, vec![None, Some(9)]);
    assert_eq!(session.input_info[1].name, "attention_mask");
    assert_eq!(session.input_info[1].input_type, ElementType::Float);
    assert_eq!(session.input_info[1].input_dim, vec![Some(2), Some(9)]);
    assert_eq!(session.output_info.len(), 1);
    assert_eq!(session.output_info[0].name, "logits");
    assert_eq!(session.output_info[0].output_type, ElementType::Float);
    assert_eq!(session.output_info[0].output_dim, vec![Some(2), Some(9)]);
}

#[test]
fn failed_session_creation_translates_and_releases() {
    let mut probe = ReleaseProbe::new();
    let (_rt, mut env) = ready_world(&mut probe);
    let pending = new_builder(&mut probe)
        .build_with_model_from_file(&env, true)
        .unwrap();
    let reply = BuildReply {
        session: CallReply {
            status: Some(create_status(4, "no model".to_string())),
            handle: 0,
        },
        allocator: ok_reply(0x6100),
        mem_info: ok_reply(0x6200),
        inputs: vec![],
        outputs: vec![],
    };
    let before = probe.count;
    match pending.complete(&mut env, reply, &mut probe) {
        Err(OrsError::Runtime { code, message }) => {
            assert_eq!(code, 4);
            assert_eq!(message, "no model");
        }
        other => panic!("expected a runtime error, got {:?}", other),
    }
    assert_eq!(probe.count, before + 1);
    assert_eq!(env.live_sessions, 0);
}

#[test]
fn default_memory_info_resolves_through_the_allocator() {
    let mut probe = ReleaseProbe::new();
    let h = get_default_memory_info(ok_reply(0x6100), ok_reply(0x6200), &mut probe).unwrap();
    assert_eq!(h, 0x6200);
    assert_eq!(probe.count, 0);
}

fn input_tensors(probe: &mut ReleaseProbe) -> Vec<Tensor> {
    let ids: Vec<i64> = vec![
        50256, 50256, 50256, 50256, 13466, 7541, 287, 15489, 1989, 1456, 318, 281, 1672, 286,
        308, 457, 17, 2746,
    ];
    let ids_req = plan_tensor(&ids, &vec![2, 9]).unwrap();
    let ids_tensor = bind(ids_req, ok_reply(0x7000), probe).unwrap();
    let mask_req = plan_tensor_raw(18, ElementType::Float, &vec![2, 9]).unwrap();
    let mask_tensor = bind(mask_req, ok_reply(0x7008), probe).unwrap();
    vec![ids_tensor, mask_tensor]
}

#[test]
fn run_validates_types_before_the_abi() {
    let mut probe = ReleaseProbe::new();
    let (_rt, mut env) = ready_world(&mut probe);
    let session = build_two_in_one_out(&mut env, &mut probe);
    // Second input bound as Int64 where the schema wants Float.
    let ids: Vec<i64> = vec![0; 18];
    let a = bind(plan_tensor(&ids, &vec![2, 9]).unwrap(), ok_reply(0x7000), &mut probe).unwrap();
    let b = bind(plan_tensor(&ids, &vec![2, 9]).unwrap(), ok_reply(0x7008), &mut probe).unwrap();
    let out = bind(
        plan_tensor_raw(18, ElementType::Float, &vec![2, 9]).unwrap(),
        ok_reply(0x7010),
        &mut probe,
    )
    .unwrap();
    match prepare_run(&session, &vec![a, b], &vec![out]) {
        Err(OrsError::TypeMismatch { expected, actual }) => {
            assert_eq!(expected, ElementType::Float);
            assert_eq!(actual, ElementType::Int64);
        }
        other => panic!("expected a type mismatch, got {:?}", other),
    }
}

#[test]
fn run_validates_shapes_before_the_abi() {
    let mut probe = ReleaseProbe::new();
    let (_rt, mut env) = ready_world(&mut probe);
    let session = build_two_in_one_out(&mut env, &mut probe);
    // First input shaped [3, 9] where the schema fixes the second
    // dimension to 9 but the first stays unknown; [3, 10] must fail.
    let ids: Vec<i64> = vec![0; 30];
    let a = bind(plan_tensor(&ids, &vec![3, 10]).unwrap(), ok_reply(0x7000), &mut probe).unwrap();
    let mask = bind(
        plan_tensor_raw(18, ElementType::Float, &vec![2, 9]).unwrap(),
        ok_reply(0x7008),
        &mut probe,
    )
    .unwrap();
    let out = bind(
        plan_tensor_raw(18, ElementType::Float, &vec![2, 9]).unwrap(),
        ok_reply(0x7010),
        &mut probe,
    )
    .unwrap();
    match prepare_run(&session, &vec![a, mask], &vec![out]) {
        Err(OrsError::ShapeMismatch {
            expected_elements,
            actual_elements,
        }) => {
            assert_eq!(expected_elements, None);
            assert_eq!(actual_elements, 30);
        }
        other => panic!("expected a shape mismatch, got {:?}", other),
    }
}

#[test]
fn run_validates_tensor_counts() {
    let mut probe = ReleaseProbe::new();
    let (_rt, mut env) = ready_world(&mut probe);
    let session = build_two_in_one_out(&mut env, &mut probe);
    let inputs = input_tensors(&mut probe);
    match prepare_run(&session, &inputs, &vec![]) {
        Err(OrsError::ShapeMismatch {
            expected_elements,
            actual_elements,
        }) => {
            assert_eq!(expected_elements, Some(1));
            assert_eq!(actual_elements, 0);
        }
        other => panic!("expected a count mismatch, got {:?}", other),
    }
}

#[test]
fn end_to_end_run_mutates_the_output_in_place() {
    let mut probe = ReleaseProbe::new();
    let (mut rt, mut env) = ready_world(&mut probe);
    let mut session = build_two_in_one_out(&mut env, &mut probe);

    // Two typed input buffers matching the schema, and one caller-owned
    // output buffer the native runtime writes into in place.
    let mut inputs = input_tensors(&mut probe);
    let mut logits: Vec<f32> = vec![0.0; 18];
    let out_req = plan_tensor_raw(logits.len(), ElementType::Float, &vec![2, 9]).unwrap();
    let out_tensor = bind(out_req, ok_reply(0x7010), &mut probe).unwrap();
    let mut outputs = vec![out_tensor];

    let plan = prepare_run(&session, &inputs, &outputs)
        .expect("both inputs and the output match the schema");
    assert_eq!(plan.input_names, vec!["input_ids", "attention_mask"]);
    assert_eq!(plan.output_names, vec!["logits"]);

    // The embedder dispatches the native run with the plan's positional
    // names; the native side writes the output buffer in place and returns
    // a null status.  Simulated here.
    for (i, v) in logits.iter_mut().enumerate() {
        *v = 1.0 + i as f32;
    }
    run(plan, None, &mut probe).expect("the native run succeeded");

    // The caller-owned buffer was mutated in place to non-default values.
    assert!(logits.iter().all(|v| *v != 0.0));

    // Tear everything down: every handle released exactly once, none
    // leaked, no panic.
    let releases_before = probe.count;
    for t in inputs.iter_mut() {
        t.release(&mut probe);
    }
    for t in outputs.iter_mut() {
        t.release(&mut probe);
    }
    session.release(&mut env, &mut probe);
    assert_eq!(env.live_sessions, 0);
    env.shutdown(&mut probe);
    ors::api::drop_lib(&mut rt, &env, &mut probe).unwrap();
    // 3 tensors + 1 session + 1 environment + 1 library.
    assert_eq!(probe.count, releases_before + 6);
    assert_eq!(session.session_ptr, 0);
    assert!(!rt.is_ready());
}
