use realcugan::lifecycle::{
    check_device, lifecycle_step, needs_heap_budget, EngineEvent, EngineState, LifecycleAction,
};
use realcugan::model::ConfigError;
use realcugan::tiles::CPU_FALLBACK;

#[test]
fn device_must_be_cpu_fallback_or_a_known_gpu() {
    assert_eq!(check_device(2, 2).unwrap_err(), ConfigError::InvalidDevice);
    assert_eq!(check_device(5, 2).unwrap_err(), ConfigError::InvalidDevice);
    assert_eq!(check_device(-2, 2).unwrap_err(), ConfigError::InvalidDevice);
    assert!(check_device(-1, 0).is_ok());
    assert!(check_device(-1, 2).is_ok());
    assert!(check_device(0, 2).is_ok());
    assert!(check_device(1, 2).is_ok());
    assert_eq!(check_device(0, 0).unwrap_err(), ConfigError::InvalidDevice);
}

#[test]
fn heap_budget_is_queried_only_for_auto_tile_size_on_a_gpu() {
    assert!(needs_heap_budget(0, 0));
    assert!(needs_heap_budget(3, 0));
    assert!(!needs_heap_budget(CPU_FALLBACK, 0));
    assert!(!needs_heap_budget(0, 100));
    assert!(!needs_heap_budget(CPU_FALLBACK, 100));
}

#[test]
fn construction_processing_and_destruction_walk() {
    let (s, a) =
        lifecycle_step(EngineState::Uninitialized, EngineEvent::ContextInitialized).unwrap();
    assert_eq!((s, a), (EngineState::GpuContextReady, LifecycleAction::NoAction));
    let (s, a) = lifecycle_step(s, EngineEvent::ModelLoadCompleted).unwrap();
    assert_eq!((s, a), (EngineState::ModelLoaded, LifecycleAction::NoAction));
    let (s, a) = lifecycle_step(s, EngineEvent::MarkedReady).unwrap();
    assert_eq!((s, a), (EngineState::Ready, LifecycleAction::NoAction));
    let (s, a) = lifecycle_step(s, EngineEvent::ProcessingStarted).unwrap();
    assert_eq!((s, a), (EngineState::Processing, LifecycleAction::NoAction));
    let (s, a) = lifecycle_step(s, EngineEvent::ProcessingFinished).unwrap();
    assert_eq!((s, a), (EngineState::Ready, LifecycleAction::NoAction));
    let (s, a) = lifecycle_step(s, EngineEvent::Destroy).unwrap();
    assert_eq!((s, a), (EngineState::Destroyed, LifecycleAction::ReleaseEngine));
}

#[test]
fn device_rejection_tears_the_context_down_and_allows_a_retry() {
    let (s, a) =
        lifecycle_step(EngineState::GpuContextReady, EngineEvent::DeviceRejected).unwrap();
    assert_eq!(s, EngineState::Uninitialized);
    assert_eq!(a, LifecycleAction::TearDownGpuContext);
    // A subsequent valid construction starts over from the same state.
    let (s, a) = lifecycle_step(s, EngineEvent::ContextInitialized).unwrap();
    assert_eq!((s, a), (EngineState::GpuContextReady, LifecycleAction::NoAction));
}

#[test]
fn destroy_releases_from_every_engine_holding_state() {
    for s in [EngineState::ModelLoaded, EngineState::Ready, EngineState::Processing] {
        let (next, action) = lifecycle_step(s, EngineEvent::Destroy).unwrap();
        assert_eq!(next, EngineState::Destroyed);
        assert_eq!(action, LifecycleAction::ReleaseEngine);
    }
}

#[test]
fn second_destroy_releases_nothing() {
    let (s, a) = lifecycle_step(EngineState::Destroyed, EngineEvent::Destroy).unwrap();
    assert_eq!(s, EngineState::Destroyed);
    assert_eq!(a, LifecycleAction::NoAction);
}

#[test]
fn out_of_place_events_are_refused() {
    assert!(lifecycle_step(EngineState::Uninitialized, EngineEvent::ProcessingStarted).is_none());
    assert!(lifecycle_step(EngineState::Ready, EngineEvent::ContextInitialized).is_none());
    assert!(lifecycle_step(EngineState::Destroyed, EngineEvent::ProcessingStarted).is_none());
    assert!(lifecycle_step(EngineState::Processing, EngineEvent::ProcessingStarted).is_none());
}
