//! Resolver and environment lifecycle: lazy one-time initialization,
//! idempotence, failure recovery, and ordered shutdown.

use ors::api::{
    begin_initialize, drop_lib, find, initialize_runtime, InitAction, LoadOutcome, Runtime,
    RuntimeState, ORT_API_VERSION,
};
use ors::env::{get_env_ptr, EnvAction, Environment};
use ors::error::{InitFailure, OrsError};
use ors::log::LoggingLevel;
use ors::status::{CallReply, ReleaseProbe};

fn ready_runtime() -> Runtime {
    let mut rt = Runtime::new();
    initialize_runtime(
        &mut rt,
        LoadOutcome::Loaded {
            lib_handle: 0x1000,
            api_version: ORT_API_VERSION,
        },
    )
    .expect("load should be adopted");
    rt
}

fn ready_env(rt: &Runtime, probe: &mut ReleaseProbe) -> Environment {
    let mut env = Environment::new();
    match env.init_action(rt).expect("resolver is ready") {
        EnvAction::PerformCreate => {
            env.complete_init(
                LoggingLevel::Warning,
                CallReply {
                    status: None,
                    handle: 0x2000,
                },
                probe,
            )
            .expect("environment creation succeeds");
        }
        EnvAction::UseExisting => {}
    }
    env
}

#[test]
fn lib_it_works() {
    assert_eq!(8, ORT_API_VERSION);
}

#[test]
fn test_get_dynamic_load() {
    let rt = ready_runtime();
    assert!(rt.is_ready());
    assert_eq!(rt.api_version().unwrap(), ORT_API_VERSION);
}

#[test]
fn test_initialize_twice() {
    let mut rt = ready_runtime();
    assert_eq!(rt.loads, 1);
    // A second initialization is a no-op: no further native load.
    initialize_runtime(
        &mut rt,
        LoadOutcome::Loaded {
            lib_handle: 0x9999,
            api_version: ORT_API_VERSION,
        },
    )
    .expect("second call is a no-op");
    assert_eq!(rt.loads, 1);
    match rt.state {
        RuntimeState::Ready {
            lib_handle,
            api_version,
        } => {
            // The original handle is kept, not replaced.
            assert_eq!(lib_handle, 0x1000);
            assert_eq!(api_version, ORT_API_VERSION);
        }
        _ => panic!("runtime must stay ready"),
    }
}

#[test]
#[should_panic]
fn test_drop_loaded_lib() {
    let mut rt = ready_runtime();
    assert_eq!(rt.api_version().unwrap(), ORT_API_VERSION);
    let env = Environment::new();
    let mut probe = ReleaseProbe::new();
    drop_lib(&mut rt, &env, &mut probe).unwrap();
    // Using the API after the library is dropped is a hard failure.
    rt.api_version().unwrap();
}

#[test]
#[should_panic]
fn test_macro() {
    // Dispatching through the API table before initialization panics.
    let rt = Runtime::new();
    rt.api_version().unwrap();
}

#[test]
fn test_env() {
    let rt = ready_runtime();
    let mut probe = ReleaseProbe::new();
    let env = ready_env(&rt, &mut probe);
    let p = get_env_ptr(&env).expect("environment is initialized");
    assert_ne!(p, 0);
}

#[test]
fn env_initializer_is_idempotent() {
    let rt = ready_runtime();
    let mut probe = ReleaseProbe::new();
    let mut env = ready_env(&rt, &mut probe);
    assert_eq!(env.creations, 1);
    // Any number of further requests reuse the one construction.
    for _ in 0..5 {
        match env.init_action(&rt).unwrap() {
            EnvAction::UseExisting => {}
            EnvAction::PerformCreate => panic!("must not construct again"),
        }
    }
    assert_eq!(env.creations, 1);
    assert_eq!(get_env_ptr(&env).unwrap(), 0x2000);
    env.shutdown(&mut probe);
    assert_eq!(probe.count, 1);
}

#[test]
fn env_before_resolver_is_not_initialized() {
    let rt = Runtime::new();
    let env = Environment::new();
    assert!(matches!(
        env.init_action(&rt),
        Err(OrsError::NotInitialized)
    ));
}

#[test]
fn version_mismatch_is_reported_and_retryable() {
    let mut rt = Runtime::new();
    let r = initialize_runtime(
        &mut rt,
        LoadOutcome::Loaded {
            lib_handle: 0x1000,
            api_version: 9,
        },
    );
    match r {
        Err(OrsError::Initialization(InitFailure::VersionMismatch { expected, reported })) => {
            assert_eq!(expected, ORT_API_VERSION);
            assert_eq!(reported, 9);
        }
        other => panic!("expected a version mismatch, got {:?}", other),
    }
    // The resolver is back to uninitialized: a retry can succeed.
    assert!(!rt.is_ready());
    initialize_runtime(
        &mut rt,
        LoadOutcome::Loaded {
            lib_handle: 0x1000,
            api_version: ORT_API_VERSION,
        },
    )
    .expect("retry after mismatch succeeds");
    assert!(rt.is_ready());
}

#[test]
fn failed_load_is_reported_and_retryable() {
    let mut rt = Runtime::new();
    let r = initialize_runtime(&mut rt, LoadOutcome::Failed);
    assert!(matches!(
        r,
        Err(OrsError::Initialization(InitFailure::LoadFailed))
    ));
    assert!(!rt.is_ready());
    initialize_runtime(
        &mut rt,
        LoadOutcome::Loaded {
            lib_handle: 0x1000,
            api_version: ORT_API_VERSION,
        },
    )
    .expect("retry after failure succeeds");
}

#[test]
fn begin_initialize_reports_each_action() {
    let mut rt = Runtime::new();
    assert_eq!(begin_initialize(&mut rt), InitAction::PerformLoad);
    // While a load is in flight, other callers wait.
    assert_eq!(begin_initialize(&mut rt), InitAction::Wait);
}

#[test]
fn drop_lib_without_init_is_a_noop() {
    let mut rt = Runtime::new();
    let env = Environment::new();
    let mut probe = ReleaseProbe::new();
    drop_lib(&mut rt, &env, &mut probe).unwrap();
    assert_eq!(probe.count, 0);
    let mut rt2 = ready_runtime();
    drop_lib(&mut rt2, &env, &mut probe).unwrap();
    assert_eq!(probe.count, 1);
    assert!(!rt2.is_ready());
}

#[test]
fn find_names_the_default_library_path() {
    let path = find().expect("a default path exists");
    assert_eq!(path, "/usr/local/lib/libonnxruntime.so");
}
