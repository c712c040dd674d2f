use wgpu_stage::PollType;
use wgpu_stage::backend::BackendSelection;
use wgpu_stage::backend::ConfigError;
use wgpu_stage::backend::backend_from_name;
use wgpu_stage::poll::LifecycleState;
use wgpu_stage::poll::LoopDecision;
use wgpu_stage::poll::PollOutcome;
use wgpu_stage::poll::PollRequest;
use wgpu_stage::poll::loop_step;
use wgpu_stage::poll::poll_request_for;

#[test]
fn backend_names_resolve() {
    assert_eq!(backend_from_name(None), Ok(BackendSelection::All));
    assert_eq!(backend_from_name(Some(&"vulkan".to_owned())), Ok(BackendSelection::Vulkan));
    assert_eq!(backend_from_name(Some(&"metal".to_owned())), Ok(BackendSelection::Metal));
    assert_eq!(backend_from_name(Some(&"dx12".to_owned())), Ok(BackendSelection::Dx12));
    assert_eq!(backend_from_name(Some(&"gl".to_owned())), Ok(BackendSelection::Gl));
}

#[test]
fn unknown_backend_name_is_a_configuration_error() {
    assert_eq!(backend_from_name(Some(&"opengl".to_owned())), Err(ConfigError::UnknownBackend));
    assert_eq!(backend_from_name(Some(&"".to_owned())), Err(ConfigError::UnknownBackend));
    // The caller lower-cases before resolving; a raw upper-case name does
    // not match.
    assert_eq!(backend_from_name(Some(&"Vulkan".to_owned())), Err(ConfigError::UnknownBackend));
}

#[test]
fn poll_requests_per_mode() {
    assert_eq!(poll_request_for(PollType::Threaded), Some(PollRequest::WaitWithTimeout));
    assert_eq!(poll_request_for(PollType::ThreadedBusy), Some(PollRequest::NonBlocking));
    assert_eq!(poll_request_for(PollType::Manual), None);
    assert!(PollType::Threaded.spawns_thread());
    assert!(PollType::ThreadedBusy.spawns_thread());
    assert!(!PollType::Manual.spawns_thread());
}

#[test]
fn loop_decisions() {
    // A timeout is routine: the loop goes on.
    assert_eq!(loop_step(true, true, PollOutcome::TimedOut), LoopDecision::Continue);
    assert_eq!(loop_step(true, true, PollOutcome::QueueEmpty), LoopDecision::Continue);
    // An unrecoverable queue fault is fatal to the loop alone.
    assert_eq!(loop_step(true, true, PollOutcome::Fault), LoopDecision::Exit);
    // A dropped owner ends the loop.
    assert_eq!(loop_step(true, false, PollOutcome::QueueEmpty), LoopDecision::Exit);
    // A cleared running flag ends the loop at the very next decision.
    assert_eq!(loop_step(false, true, PollOutcome::QueueEmpty), LoopDecision::Exit);
}

#[test]
fn teardown_joins_once_and_is_idempotent() {
    let mut lifecycle = LifecycleState::started();
    assert!(lifecycle.running);
    let join_now = lifecycle.teardown();
    assert!(join_now);
    assert!(!lifecycle.running);
    // After teardown the loop's next decision is to exit: the thread is
    // joined within a bounded time.
    assert_eq!(loop_step(lifecycle.running, true, PollOutcome::QueueEmpty), LoopDecision::Exit);
    // Calling teardown again is safe and joins nothing twice.
    let join_again = lifecycle.teardown();
    assert!(!join_again);
    assert!(!lifecycle.running);
}
