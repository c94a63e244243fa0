use tcptotcp::coordinator::{SessionPhase, ShutdownCoordinator};
use tcptotcp::endpoint::Endpoint;

fn rank(phase: SessionPhase) -> u8 {
    match phase {
        SessionPhase::Running => 0,
        SessionPhase::ShuttingDown => 1,
        SessionPhase::Closed => 2,
    }
}

#[test]
fn fresh_coordinator_is_running() {
    let coordinator = ShutdownCoordinator::new();
    assert!(!coordinator.is_shutdown());
    assert!(!coordinator.is_closed(Endpoint::First));
    assert!(!coordinator.is_closed(Endpoint::Second));
    assert_eq!(coordinator.phase(), SessionPhase::Running);
}

#[test]
fn first_request_makes_the_transition() {
    let mut coordinator = ShutdownCoordinator::new();
    assert!(coordinator.request_shutdown());
    assert!(coordinator.is_shutdown());
    assert_eq!(coordinator.phase(), SessionPhase::ShuttingDown);
    assert!(!coordinator.is_closed(Endpoint::First));
    assert!(!coordinator.is_closed(Endpoint::Second));
}

#[test]
fn repeated_requests_are_no_ops() {
    let mut coordinator = ShutdownCoordinator::new();
    assert!(coordinator.request_shutdown());
    for _ in 0..5 {
        assert!(!coordinator.request_shutdown());
        assert!(coordinator.is_shutdown());
        assert_eq!(coordinator.phase(), SessionPhase::ShuttingDown);
    }
}

#[test]
fn closing_an_endpoint_requests_shutdown() {
    let mut coordinator = ShutdownCoordinator::new();
    assert!(coordinator.close_endpoint(Endpoint::Second));
    assert!(coordinator.is_shutdown());
    assert!(coordinator.is_closed(Endpoint::Second));
    assert!(!coordinator.is_closed(Endpoint::First));
    assert_eq!(coordinator.phase(), SessionPhase::ShuttingDown);
    assert!(!coordinator.request_shutdown());
}

#[test]
fn each_endpoint_is_granted_once() {
    let mut coordinator = ShutdownCoordinator::new();
    let calls = [
        Endpoint::First,
        Endpoint::First,
        Endpoint::Second,
        Endpoint::First,
        Endpoint::Second,
        Endpoint::Second,
    ];
    let expected = [true, false, true, false, false, false];
    for (call, granted) in calls.iter().zip(expected.iter()) {
        assert_eq!(coordinator.close_endpoint(*call), *granted);
    }
    assert_eq!(coordinator.phase(), SessionPhase::Closed);
}

#[test]
fn session_is_closed_when_both_endpoints_are() {
    let mut coordinator = ShutdownCoordinator::new();
    assert!(coordinator.close_endpoint(Endpoint::First));
    assert_eq!(coordinator.phase(), SessionPhase::ShuttingDown);
    assert!(coordinator.close_endpoint(Endpoint::Second));
    assert_eq!(coordinator.phase(), SessionPhase::Closed);
    assert!(coordinator.is_shutdown());
}

#[test]
fn closed_session_stays_closed() {
    let mut coordinator = ShutdownCoordinator::new();
    coordinator.close_endpoint(Endpoint::Second);
    coordinator.close_endpoint(Endpoint::First);
    assert!(!coordinator.request_shutdown());
    assert!(!coordinator.close_endpoint(Endpoint::First));
    assert!(!coordinator.close_endpoint(Endpoint::Second));
    assert_eq!(coordinator.phase(), SessionPhase::Closed);
    assert!(coordinator.is_shutdown());
}

#[test]
fn phases_only_move_forward() {
    let mut coordinator = ShutdownCoordinator::new();
    let mut last = rank(coordinator.phase());
    let calls = [Endpoint::Second, Endpoint::Second, Endpoint::First, Endpoint::Second];
    for call in calls {
        coordinator.request_shutdown();
        assert!(rank(coordinator.phase()) >= last);
        last = rank(coordinator.phase());
        coordinator.close_endpoint(call);
        assert!(rank(coordinator.phase()) >= last);
        last = rank(coordinator.phase());
    }
    assert_eq!(last, 2);
}
