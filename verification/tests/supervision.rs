use backend_supervisor::monitor::{contains_substring, line_has_ready_marker, MonitorAction, OutputMonitor, StreamEvent};
use backend_supervisor::prober::{
    classify_probe, health_endpoints, is_success_status, AttemptOutcome, HealthProber,
    ProbeOutcome, ProbeResult, ProbeStep, INITIAL_DELAY_MS, MAX_ATTEMPTS, MAX_DELAY_MS,
    PROBE_TIMEOUT_MS,
};
use backend_supervisor::readiness::ReadinessState;
use backend_supervisor::supervisor::{Supervisor, SupervisorError};

#[test]
fn readiness_starts_not_ready() {
    let ready = ReadinessState::new();
    assert!(!ready.is_ready());
}

#[test]
fn readiness_only_moves_forward() {
    let mut ready = ReadinessState::new();
    ready.mark_ready();
    assert!(ready.is_ready());
    ready.mark_ready();
    assert!(ready.is_ready());
}

#[test]
fn terminate_twice_issues_one_kill() {
    let mut sup: Supervisor<u32> = Supervisor::new();
    let installed = sup.complete_start(Ok(7));
    assert!(installed.is_ok());
    let first = sup.terminate();
    let second = sup.terminate();
    assert_eq!(first, Some(7));
    assert_eq!(second, None);
    assert!(!sup.is_started());
}

#[test]
fn terminate_without_start_is_a_no_op() {
    let mut sup: Supervisor<u32> = Supervisor::new();
    assert_eq!(sup.terminate(), None);
    assert_eq!(sup.terminate(), None);
}

#[test]
fn second_start_is_refused() {
    let mut sup: Supervisor<u32> = Supervisor::new();
    assert!(sup.begin_start().is_ok());
    assert!(sup.complete_start(Ok(1)).is_ok());
    assert_eq!(sup.begin_start(), Err(SupervisorError::AlreadyStarted));
    assert_eq!(sup.complete_start(Ok(2)), Err(SupervisorError::AlreadyStarted));
    assert_eq!(sup.terminate(), Some(1));
}

#[test]
fn spawn_failure_is_surfaced_not_fatal() {
    let mut sup: Supervisor<u32> = Supervisor::new();
    let outcome = sup.complete_start(Err(String::from("executable not found")));
    assert_eq!(
        outcome,
        Err(SupervisorError::SpawnFailure(String::from("executable not found")))
    );
    assert!(!sup.is_started());
}

#[test]
fn backoff_sequence_is_doubled_and_capped() {
    let mut prober = HealthProber::new();
    let mut ready = ReadinessState::new();
    let results = vec![ProbeResult::NoResponse; MAX_ATTEMPTS as usize];
    let (outcome, delays) = prober.run_to_completion(&results, &mut ready);
    assert_eq!(outcome, ProbeOutcome::TimedOutForcedReady);
    assert_eq!(delays.len(), MAX_ATTEMPTS as usize);
    let mut expected: Vec<u64> = vec![200, 400, 800, 1600];
    while expected.len() < MAX_ATTEMPTS as usize {
        expected.push(2000);
    }
    assert_eq!(delays, expected);
    assert!(ready.is_ready());
}

#[test]
fn exhausted_budget_forces_readiness() {
    let mut prober = HealthProber::new();
    let mut ready = ReadinessState::new();
    let results = vec![ProbeResult::NotReady; MAX_ATTEMPTS as usize];
    let (outcome, delays) = prober.run_to_completion(&results, &mut ready);
    assert_eq!(outcome, ProbeOutcome::TimedOutForcedReady);
    assert_eq!(delays.len(), 30);
    assert!(ready.is_ready());
}

#[test]
fn probe_success_stops_the_loop() {
    let mut prober = HealthProber::new();
    let mut ready = ReadinessState::new();
    let results = vec![
        ProbeResult::NoResponse,
        ProbeResult::NotReady,
        ProbeResult::Success,
    ];
    let (outcome, delays) = prober.run_to_completion(&results, &mut ready);
    assert_eq!(outcome, ProbeOutcome::ReadyViaProbe);
    assert_eq!(delays, vec![200, 400]);
    assert!(ready.is_ready());
}

#[test]
fn readiness_set_elsewhere_stops_the_loop() {
    let mut prober = HealthProber::new();
    let mut ready = ReadinessState::new();
    ready.mark_ready();
    let results = vec![ProbeResult::NoResponse; MAX_ATTEMPTS as usize];
    let (outcome, delays) = prober.run_to_completion(&results, &mut ready);
    assert_eq!(outcome, ProbeOutcome::ReadyViaMonitor);
    assert!(delays.is_empty());
    assert!(ready.is_ready());
}

#[test]
fn single_attempt_steps() {
    let mut prober = HealthProber::new();
    let mut ready = ReadinessState::new();
    assert_eq!(prober.begin_attempt(&mut ready), ProbeStep::Probe);
    assert_eq!(
        prober.complete_attempt(ProbeResult::NotReady, &mut ready),
        AttemptOutcome::Retry { sleep_ms: 200 }
    );
    assert_eq!(prober.begin_attempt(&mut ready), ProbeStep::Probe);
    assert_eq!(
        prober.complete_attempt(ProbeResult::NoResponse, &mut ready),
        AttemptOutcome::Retry { sleep_ms: 400 }
    );
    assert_eq!(prober.attempts(), 2);
    assert!(!ready.is_ready());
    assert_eq!(prober.begin_attempt(&mut ready), ProbeStep::Probe);
    assert_eq!(
        prober.complete_attempt(ProbeResult::Success, &mut ready),
        AttemptOutcome::Done(ProbeOutcome::ReadyViaProbe)
    );
    assert!(ready.is_ready());
}

#[test]
fn status_classification() {
    assert!(!is_success_status(199));
    assert!(is_success_status(200));
    assert!(is_success_status(204));
    assert!(is_success_status(299));
    assert!(!is_success_status(300));
    assert!(!is_success_status(404));
    assert!(!is_success_status(500));
}

#[test]
fn probe_classification() {
    assert_eq!(classify_probe(Some(200)), ProbeResult::Success);
    assert_eq!(classify_probe(Some(503)), ProbeResult::NotReady);
    assert_eq!(classify_probe(Some(301)), ProbeResult::NotReady);
    assert_eq!(classify_probe(None), ProbeResult::NoResponse);
}

#[test]
fn endpoints_in_priority_order() {
    let endpoints = health_endpoints();
    assert_eq!(
        endpoints,
        vec![
            "http://localhost:8000/health",
            "http://127.0.0.1:8000/health",
            "http://localhost:8000/docs",
        ]
    );
}

#[test]
fn reference_constants() {
    assert_eq!(INITIAL_DELAY_MS, 200);
    assert_eq!(MAX_DELAY_MS, 2000);
    assert_eq!(MAX_ATTEMPTS, 30);
    assert_eq!(PROBE_TIMEOUT_MS, 1000);
}

#[test]
fn substring_search() {
    assert!(contains_substring("INFO: Uvicorn running on http://0.0.0.0:8000", "Uvicorn running on"));
    assert!(contains_substring("abc", ""));
    assert!(contains_substring("abc", "abc"));
    assert!(!contains_substring("ab", "abc"));
    assert!(!contains_substring("Uvicorn runs", "Uvicorn running on"));
}

#[test]
fn marker_recognition() {
    assert!(line_has_ready_marker("Listening on 0.0.0.0:8000"));
    assert!(line_has_ready_marker("See the API Docs at /docs"));
    assert!(line_has_ready_marker("INFO: Uvicorn running on http://0.0.0.0:8000"));
    assert!(!line_has_ready_marker("Booting worker with pid 42"));
    assert!(!line_has_ready_marker(""));
}

#[test]
fn listening_marker_sets_readiness_immediately() {
    let mut mon = OutputMonitor::new();
    let mut ready = ReadinessState::new();
    let prober = HealthProber::new();
    let action = mon.on_event(
        &StreamEvent::Stdout(String::from("Listening on 127.0.0.1:8000")),
        &mut ready,
    );
    assert_eq!(action, MonitorAction::Continue);
    assert!(ready.is_ready());
    assert_eq!(prober.attempts(), 0);
}

#[test]
fn stderr_changes_nothing() {
    let mut mon = OutputMonitor::new();
    let mut ready = ReadinessState::new();
    let action = mon.on_event(
        &StreamEvent::Stderr(String::from("Listening on 127.0.0.1:8000")),
        &mut ready,
    );
    assert_eq!(action, MonitorAction::Continue);
    assert!(!ready.is_ready());
    assert!(mon.needs_startup_warning());
}

#[test]
fn stream_end_without_confirmation_warns() {
    let mut mon = OutputMonitor::new();
    let mut ready = ReadinessState::new();
    let events = vec![
        StreamEvent::Stdout(String::from("Booting worker with pid 42")),
        StreamEvent::Terminated(Some(1)),
        StreamEvent::Stdout(String::from("Listening on 127.0.0.1:8000")),
    ];
    let consumed = mon.process_events(&events, &mut ready);
    assert_eq!(consumed, 2);
    assert!(mon.needs_startup_warning());
    assert!(!ready.is_ready());
}

#[test]
fn termination_event_exits_the_loop() {
    let mut mon = OutputMonitor::new();
    let mut ready = ReadinessState::new();
    let action = mon.on_event(&StreamEvent::Terminated(None), &mut ready);
    assert_eq!(action, MonitorAction::Exit);
    assert!(!ready.is_ready());
}

#[test]
fn uvicorn_startup_scenario() {
    let mut sup: Supervisor<u64> = Supervisor::new();
    assert!(sup.begin_start().is_ok());
    assert!(sup.complete_start(Ok(4242)).is_ok());

    let mut mon = OutputMonitor::new();
    let mut ready = ReadinessState::new();
    let prober = HealthProber::new();

    let action = mon.on_event(
        &StreamEvent::Stdout(String::from("INFO: Uvicorn running on http://0.0.0.0:8000")),
        &mut ready,
    );
    assert_eq!(action, MonitorAction::Continue);
    assert!(ready.is_ready());
    assert_eq!(prober.attempts(), 0);

    assert_eq!(sup.terminate(), Some(4242));
    assert_eq!(sup.terminate(), None);
}

#[test]
fn whole_stream_with_marker_sets_readiness() {
    let mut mon = OutputMonitor::new();
    let mut ready = ReadinessState::new();
    let events = vec![
        StreamEvent::Stdout(String::from("Booting worker with pid 42")),
        StreamEvent::Stderr(String::from("warning: something minor")),
        StreamEvent::Stdout(String::from("Listening on 0.0.0.0:8000")),
        StreamEvent::Terminated(Some(0)),
    ];
    let consumed = mon.process_events(&events, &mut ready);
    assert_eq!(consumed, 4);
    assert!(ready.is_ready());
    assert!(!mon.needs_startup_warning());
}
