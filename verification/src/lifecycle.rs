//! Engine handle lifecycle: device-index validation, when the heap
//! budget has to be queried, and the state machine a handle moves
//! through from GPU-context initialization to destruction.
//!
//! The embedding shim performs the native calls; this module decides
//! which transition each outcome causes and which native action — a
//! context teardown, an engine release — accompanies it.

use vstd::prelude::*;
use crate::model::ConfigError;
use crate::tiles::CPU_FALLBACK;

verus! {

/// A device selector is acceptable when it names the CPU fallback or one
/// of the GPUs the context reports.
pub open spec fn device_in_range(device: i32, gpu_count: i32) -> bool {
    -1 <= device < gpu_count
}

/// Validates the requested device against the GPU count the freshly
/// initialized context reported.  Rejection is a fatal configuration
/// error; the caller owes the context a teardown on that path (see
/// [`lemma_rejection_leaves_no_context`]).
pub fn check_device(device: i32, gpu_count: i32) -> (r: Result<(), ConfigError>)
    ensures
        r is Ok <==> device_in_range(device, gpu_count),
        r is Err ==> r->Err_0 == ConfigError::InvalidDevice,
{
    if device < -1 || device >= gpu_count {
        Err(ConfigError::InvalidDevice)
    } else {
        Ok(())
    }
}

/// Whether constructing the engine requires the per-device heap-budget
/// query: only when no explicit tile size was requested and the device
/// is a GPU.  The budget is queried once, at construction, and never
/// cached beyond it.
pub fn needs_heap_budget(device: i32, requested_tile_size: u32) -> (r: bool)
    ensures
        r <==> (requested_tile_size == 0 && device != CPU_FALLBACK),
{
    requested_tile_size == 0 && device != CPU_FALLBACK
}

/// The states one engine handle moves through.
#[derive(Debug, Copy, Clone, PartialEq, Eq, Structural)]
pub enum EngineState {
    /// No native resource exists for this handle.
    Uninitialized,
    /// The process-wide GPU context is initialized; the device count can
    /// be queried.
    GpuContextReady,
    /// The native engine instance exists and its two companion files are
    /// loaded.
    ModelLoaded,
    /// The handle accepts processing calls.
    Ready,
    /// One blocking processing call is in flight; the handle must not be
    /// entered again until it finishes.
    Processing,
    /// The native engine instance has been released.
    Destroyed,
}

/// What happened, or was decided, at the boundary to the native engine.
#[derive(Debug, Copy, Clone, PartialEq, Eq, Structural)]
pub enum EngineEvent {
    /// The process-wide GPU context finished initializing.
    ContextInitialized,
    /// The requested device index was rejected.
    DeviceRejected,
    /// The engine instance was constructed and both companion files
    /// loaded.
    ModelLoadCompleted,
    /// The loaded handle was marked ready for processing.
    MarkedReady,
    /// A processing call entered the engine.
    ProcessingStarted,
    /// The processing call returned.
    ProcessingFinished,
    /// The owner relinquished the handle.
    Destroy,
}

/// The native call the shim owes for a transition.
#[derive(Debug, Copy, Clone, PartialEq, Eq, Structural)]
pub enum LifecycleAction {
    /// Nothing to call.
    NoAction,
    /// Tear the process-wide GPU context down.
    TearDownGpuContext,
    /// Release the native engine instance.
    ReleaseEngine,
}

/// Whether a live native engine instance stands behind this state.
pub open spec fn holds_native_engine(s: EngineState) -> bool {
    s == EngineState::ModelLoaded || s == EngineState::Ready || s == EngineState::Processing
}

/// The handle's transition table: the successor state and owed native
/// action for each event a state admits, and `None` for an event the
/// state does not admit.
pub open spec fn spec_lifecycle_step(s: EngineState, e: EngineEvent) -> Option<
    (EngineState, LifecycleAction),
> {
    match (s, e) {
        (EngineState::Uninitialized, EngineEvent::ContextInitialized) => Some(
            (EngineState::GpuContextReady, LifecycleAction::NoAction),
        ),
        (EngineState::GpuContextReady, EngineEvent::DeviceRejected) => Some(
            (EngineState::Uninitialized, LifecycleAction::TearDownGpuContext),
        ),
        (EngineState::GpuContextReady, EngineEvent::ModelLoadCompleted) => Some(
            (EngineState::ModelLoaded, LifecycleAction::NoAction),
        ),
        (EngineState::ModelLoaded, EngineEvent::MarkedReady) => Some(
            (EngineState::Ready, LifecycleAction::NoAction),
        ),
        (EngineState::Ready, EngineEvent::ProcessingStarted) => Some(
            (EngineState::Processing, LifecycleAction::NoAction),
        ),
        (EngineState::Processing, EngineEvent::ProcessingFinished) => Some(
            (EngineState::Ready, LifecycleAction::NoAction),
        ),
        (EngineState::ModelLoaded, EngineEvent::Destroy) => Some(
            (EngineState::Destroyed, LifecycleAction::ReleaseEngine),
        ),
        (EngineState::Ready, EngineEvent::Destroy) => Some(
            (EngineState::Destroyed, LifecycleAction::ReleaseEngine),
        ),
        (EngineState::Processing, EngineEvent::Destroy) => Some(
            (EngineState::Destroyed, LifecycleAction::ReleaseEngine),
        ),
        (EngineState::Destroyed, EngineEvent::Destroy) => Some(
            (EngineState::Destroyed, LifecycleAction::NoAction),
        ),
        _ => None,
    }
}

/// Advances the handle one transition.
pub fn lifecycle_step(s: EngineState, e: EngineEvent) -> (r: Option<
    (EngineState, LifecycleAction),
>)
    ensures
        r == spec_lifecycle_step(s, e),
{
    match (s, e) {
        (EngineState::Uninitialized, EngineEvent::ContextInitialized) => Some(
            (EngineState::GpuContextReady, LifecycleAction::NoAction),
        ),
        (EngineState::GpuContextReady, EngineEvent::DeviceRejected) => Some(
            (EngineState::Uninitialized, LifecycleAction::TearDownGpuContext),
        ),
        (EngineState::GpuContextReady, EngineEvent::ModelLoadCompleted) => Some(
            (EngineState::ModelLoaded, LifecycleAction::NoAction),
        ),
        (EngineState::ModelLoaded, EngineEvent::MarkedReady) => Some(
            (EngineState::Ready, LifecycleAction::NoAction),
        ),
        (EngineState::Ready, EngineEvent::ProcessingStarted) => Some(
            (EngineState::Processing, LifecycleAction::NoAction),
        ),
        (EngineState::Processing, EngineEvent::ProcessingFinished) => Some(
            (EngineState::Ready, LifecycleAction::NoAction),
        ),
        (EngineState::ModelLoaded, EngineEvent::Destroy) => Some(
            (EngineState::Destroyed, LifecycleAction::ReleaseEngine),
        ),
        (EngineState::Ready, EngineEvent::Destroy) => Some(
            (EngineState::Destroyed, LifecycleAction::ReleaseEngine),
        ),
        (EngineState::Processing, EngineEvent::Destroy) => Some(
            (EngineState::Destroyed, LifecycleAction::ReleaseEngine),
        ),
        (EngineState::Destroyed, EngineEvent::Destroy) => Some(
            (EngineState::Destroyed, LifecycleAction::NoAction),
        ),
        _ => None,
    }
}

/// Law: rejecting the device index tears the GPU context down and
/// returns the handle to its initial state, from which a subsequent
/// construction may initialize the context again — the failure path
/// leaves no dangling context behind.
pub proof fn lemma_rejection_leaves_no_context()
    ensures
        spec_lifecycle_step(EngineState::GpuContextReady, EngineEvent::DeviceRejected) == Some(
            (EngineState::Uninitialized, LifecycleAction::TearDownGpuContext),
        ),
        spec_lifecycle_step(EngineState::Uninitialized, EngineEvent::ContextInitialized) is Some,
{
}

/// Law: destruction is reachable from every state that holds a live
/// native engine instance, always releases that instance, and always
/// ends in the destroyed state.
pub proof fn lemma_destroy_releases_engine(s: EngineState)
    requires
        holds_native_engine(s),
    ensures
        spec_lifecycle_step(s, EngineEvent::Destroy) == Some(
            (EngineState::Destroyed, LifecycleAction::ReleaseEngine),
        ),
{
}

/// Law: destruction is idempotent — destroying an already destroyed
/// handle is admitted but releases nothing a second time.
pub proof fn lemma_destroy_idempotent()
    ensures
        spec_lifecycle_step(EngineState::Destroyed, EngineEvent::Destroy) == Some(
            (EngineState::Destroyed, LifecycleAction::NoAction),
        ),
{
}

/// Law: a processing call is a round trip — it is admitted exactly in
/// the ready state, and finishing returns the handle to ready, so the
/// handle holds no per-call state between calls.
pub proof fn lemma_processing_round_trip()
    ensures
        spec_lifecycle_step(EngineState::Ready, EngineEvent::ProcessingStarted) == Some(
            (EngineState::Processing, LifecycleAction::NoAction),
        ),
        spec_lifecycle_step(EngineState::Processing, EngineEvent::ProcessingFinished) == Some(
            (EngineState::Ready, LifecycleAction::NoAction),
        ),
        forall|s: EngineState|
            spec_lifecycle_step(s, EngineEvent::ProcessingStarted) is Some ==> s
                == EngineState::Ready,
{
}

} // verus!
