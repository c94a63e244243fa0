use tcptotcp::config::SessionConfig;
use tcptotcp::supervisor::{IdleSupervisor, SupervisorAction, SupervisorEvent, SupervisorStage};

fn sampled(forward: bool, backward: bool) -> SupervisorEvent {
    SupervisorEvent::Sampled { forward, backward }
}

fn woke(shutdown_requested: bool) -> SupervisorEvent {
    SupervisorEvent::Woke { shutdown_requested }
}

/// Runs one interval in which nobody else ends the session and returns the
/// action that the supervisor asks for at its end.
fn round(supervisor: &mut IdleSupervisor, forward: bool, backward: bool) -> SupervisorAction {
    let mut action = supervisor.step(woke(false));
    if action == SupervisorAction::Sample {
        action = supervisor.step(sampled(forward, backward));
    }
    if action == SupervisorAction::ClearTraffic {
        action = supervisor.step(SupervisorEvent::TrafficCleared);
    }
    action
}

#[test]
fn fresh_supervisor_sleeps_first() {
    let supervisor = IdleSupervisor::new(SessionConfig::new(1, 2));
    assert_eq!(supervisor.stage(), SupervisorStage::Sleeping);
    assert_eq!(supervisor.pending(), SupervisorAction::Sleep);
    assert_eq!(supervisor.idle_ticks(), 0);
    assert!(!supervisor.is_finished());
    assert_eq!(supervisor.config().check_interval_seconds(), 1);
    assert_eq!(supervisor.config().idle_timeout_seconds(), 2);
}

#[test]
fn supervisor_keeps_the_clamped_timing() {
    let supervisor = IdleSupervisor::new(SessionConfig::new(0, 1));
    assert_eq!(supervisor.config().check_interval_seconds(), 1);
    assert_eq!(supervisor.config().idle_timeout_seconds(), 2);
    assert_eq!(supervisor.config().max_idle_ticks(), 2);
}

#[test]
fn silent_session_times_out_on_the_third_tick() {
    let mut supervisor = IdleSupervisor::new(SessionConfig::new(1, 2));
    assert_eq!(supervisor.step(woke(false)), SupervisorAction::Sample);
    assert_eq!(supervisor.step(sampled(false, false)), SupervisorAction::Sleep);
    assert_eq!(supervisor.idle_ticks(), 1);
    assert_eq!(supervisor.step(woke(false)), SupervisorAction::Sample);
    assert_eq!(supervisor.step(sampled(false, false)), SupervisorAction::Sleep);
    assert_eq!(supervisor.idle_ticks(), 2);
    assert_eq!(supervisor.step(woke(false)), SupervisorAction::Sample);
    assert_eq!(supervisor.step(sampled(false, false)), SupervisorAction::Shutdown);
    assert_eq!(supervisor.stage(), SupervisorStage::TimedOut);
    assert!(supervisor.is_finished());
    assert_eq!(supervisor.idle_ticks(), 2);
}

#[test]
fn clamped_request_times_out_like_its_clamped_form() {
    let mut raw = IdleSupervisor::new(SessionConfig::new(0, 1));
    let mut clamped = IdleSupervisor::new(SessionConfig::new(1, 2));
    let samples = [(false, false), (true, false), (true, true), (false, true), (false, false)];
    for _ in 0..3 {
        for (forward, backward) in samples {
            let left = round(&mut raw, forward, backward);
            let right = round(&mut clamped, forward, backward);
            assert_eq!(left, right);
            assert_eq!(raw.stage(), clamped.stage());
            assert_eq!(raw.idle_ticks(), clamped.idle_ticks());
        }
    }
    assert_eq!(raw.stage(), SupervisorStage::TimedOut);
}

#[test]
fn traffic_in_both_directions_resets_the_count() {
    let mut supervisor = IdleSupervisor::new(SessionConfig::new(1, 5));
    assert_eq!(round(&mut supervisor, false, false), SupervisorAction::Sleep);
    assert_eq!(round(&mut supervisor, true, false), SupervisorAction::Sleep);
    assert_eq!(supervisor.idle_ticks(), 2);
    assert_eq!(supervisor.step(woke(false)), SupervisorAction::Sample);
    assert_eq!(supervisor.stage(), SupervisorStage::Sampling);
    assert_eq!(supervisor.step(sampled(true, true)), SupervisorAction::ClearTraffic);
    assert_eq!(supervisor.stage(), SupervisorStage::Clearing);
    assert_eq!(supervisor.idle_ticks(), 0);
    assert_eq!(supervisor.step(SupervisorEvent::TrafficCleared), SupervisorAction::Sleep);
    assert_eq!(supervisor.stage(), SupervisorStage::Sleeping);
    assert_eq!(supervisor.idle_ticks(), 0);
}

#[test]
fn steady_traffic_never_times_out() {
    let config = SessionConfig::new(1, 2);
    let mut supervisor = IdleSupervisor::new(config);
    let rounds = 5 * config.idle_timeout_seconds();
    for _ in 0..rounds {
        assert_eq!(round(&mut supervisor, true, true), SupervisorAction::Sleep);
        assert_eq!(supervisor.idle_ticks(), 0);
        assert!(!supervisor.is_finished());
    }
}

#[test]
fn steady_traffic_survives_a_zero_tick_limit() {
    let config = SessionConfig::new(200, 2);
    assert_eq!(config.max_idle_ticks(), 0);
    let mut supervisor = IdleSupervisor::new(config);
    for _ in 0..50 {
        assert_eq!(round(&mut supervisor, true, true), SupervisorAction::Sleep);
    }
    assert_eq!(round(&mut supervisor, true, false), SupervisorAction::Shutdown);
}

#[test]
fn one_silent_direction_times_out() {
    let mut supervisor = IdleSupervisor::new(SessionConfig::new(2, 9));
    assert_eq!(supervisor.config().max_idle_ticks(), 4);
    for tick in 1..=4u64 {
        assert_eq!(round(&mut supervisor, true, false), SupervisorAction::Sleep);
        assert_eq!(supervisor.idle_ticks(), tick);
    }
    assert_eq!(round(&mut supervisor, true, false), SupervisorAction::Shutdown);
    assert_eq!(supervisor.stage(), SupervisorStage::TimedOut);
}

#[test]
fn the_other_silent_direction_times_out_too() {
    let mut supervisor = IdleSupervisor::new(SessionConfig::new(2, 9));
    for _ in 0..4 {
        assert_eq!(round(&mut supervisor, false, true), SupervisorAction::Sleep);
    }
    assert_eq!(round(&mut supervisor, false, true), SupervisorAction::Shutdown);
}

#[test]
fn reset_restarts_the_countdown() {
    let mut supervisor = IdleSupervisor::new(SessionConfig::new(1, 2));
    assert_eq!(round(&mut supervisor, false, false), SupervisorAction::Sleep);
    assert_eq!(round(&mut supervisor, false, false), SupervisorAction::Sleep);
    assert_eq!(round(&mut supervisor, true, true), SupervisorAction::Sleep);
    assert_eq!(round(&mut supervisor, false, false), SupervisorAction::Sleep);
    assert_eq!(round(&mut supervisor, false, true), SupervisorAction::Sleep);
    assert_eq!(round(&mut supervisor, true, false), SupervisorAction::Shutdown);
}

#[test]
fn shutdown_seen_on_waking_stops_the_supervisor() {
    let mut supervisor = IdleSupervisor::new(SessionConfig::new(1, 2));
    assert_eq!(supervisor.step(woke(false)), SupervisorAction::Sample);
    assert_eq!(supervisor.step(sampled(false, false)), SupervisorAction::Sleep);
    assert_eq!(supervisor.step(woke(true)), SupervisorAction::Stop);
    assert_eq!(supervisor.stage(), SupervisorStage::Stopped);
    assert!(supervisor.is_finished());
    assert_eq!(supervisor.idle_ticks(), 1);
}

#[test]
fn shutdown_seen_on_first_waking_stops_the_supervisor() {
    let mut supervisor = IdleSupervisor::new(SessionConfig::new(1, 2));
    assert_eq!(supervisor.step(woke(true)), SupervisorAction::Stop);
    assert_eq!(supervisor.stage(), SupervisorStage::Stopped);
    assert_eq!(supervisor.idle_ticks(), 0);
}

#[test]
fn shutdown_seen_after_a_reset_stops_the_supervisor() {
    let mut supervisor = IdleSupervisor::new(SessionConfig::new(1, 2));
    assert_eq!(supervisor.step(woke(false)), SupervisorAction::Sample);
    assert_eq!(supervisor.step(sampled(true, true)), SupervisorAction::ClearTraffic);
    assert_eq!(supervisor.step(SupervisorEvent::TrafficCleared), SupervisorAction::Sleep);
    assert_eq!(supervisor.step(woke(true)), SupervisorAction::Stop);
    assert_eq!(supervisor.stage(), SupervisorStage::Stopped);
}

#[test]
fn finished_supervisor_ignores_every_event() {
    let events = [
        sampled(true, true),
        sampled(false, false),
        SupervisorEvent::TrafficCleared,
        woke(false),
        woke(true),
    ];
    let mut timed_out = IdleSupervisor::new(SessionConfig::new(255, 2));
    assert_eq!(round(&mut timed_out, false, false), SupervisorAction::Shutdown);
    let mut stopped = IdleSupervisor::new(SessionConfig::new(1, 2));
    assert_eq!(stopped.step(woke(true)), SupervisorAction::Stop);
    for event in events {
        assert_eq!(timed_out.step(event), SupervisorAction::Shutdown);
        assert_eq!(timed_out.stage(), SupervisorStage::TimedOut);
        assert_eq!(stopped.step(event), SupervisorAction::Stop);
        assert_eq!(stopped.stage(), SupervisorStage::Stopped);
    }
}

#[test]
fn supervisor_events_out_of_turn_change_nothing() {
    let mut supervisor = IdleSupervisor::new(SessionConfig::new(1, 4));
    assert_eq!(supervisor.step(sampled(false, false)), SupervisorAction::Sleep);
    assert_eq!(supervisor.step(SupervisorEvent::TrafficCleared), SupervisorAction::Sleep);
    assert_eq!(supervisor.idle_ticks(), 0);
    assert_eq!(supervisor.step(woke(false)), SupervisorAction::Sample);
    assert_eq!(supervisor.step(woke(true)), SupervisorAction::Sample);
    assert_eq!(supervisor.step(SupervisorEvent::TrafficCleared), SupervisorAction::Sample);
    assert_eq!(supervisor.idle_ticks(), 0);
    assert_eq!(supervisor.step(sampled(false, true)), SupervisorAction::Sleep);
    assert_eq!(supervisor.step(sampled(false, false)), SupervisorAction::Sleep);
    assert_eq!(supervisor.step(SupervisorEvent::TrafficCleared), SupervisorAction::Sleep);
    assert_eq!(supervisor.idle_ticks(), 1);
    assert_eq!(supervisor.step(woke(false)), SupervisorAction::Sample);
    assert_eq!(supervisor.step(sampled(true, true)), SupervisorAction::ClearTraffic);
    assert_eq!(supervisor.step(woke(true)), SupervisorAction::ClearTraffic);
    assert_eq!(supervisor.step(sampled(false, false)), SupervisorAction::ClearTraffic);
    assert_eq!(supervisor.stage(), SupervisorStage::Clearing);
}

#[test]
fn largest_timeout_does_not_overflow_the_count() {
    let mut supervisor = IdleSupervisor::new(SessionConfig::new(1, u64::MAX));
    assert_eq!(supervisor.config().max_idle_ticks(), u64::MAX);
    for tick in 1..=1_000u64 {
        assert_eq!(round(&mut supervisor, false, false), SupervisorAction::Sleep);
        assert_eq!(supervisor.idle_ticks(), tick);
    }
}
