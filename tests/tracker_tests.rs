use webreg_scraper::tracker::{
    CookieEvent, PollOutcome, RegisterEvent, Registration, SessionRecovery, Supervisor,
    SupervisorAction, SupervisorEvent, TermWorker, WorkerAction, MAX_NUM_SEARCH_REQUESTS,
};

#[test]
fn stop_flag_ends_the_inner_loop() {
    let w = TermWorker::new();
    assert_eq!(w.next_action(false, false), WorkerAction::Poll);
    assert_eq!(w.next_action(true, false), WorkerAction::Stop);
    assert_eq!(w.next_action(false, true), WorkerAction::Stop);
}

#[test]
fn thirteen_failures_in_a_row_stop_the_worker() {
    let mut w = TermWorker::new();
    for _ in 0..=MAX_NUM_SEARCH_REQUESTS {
        assert_eq!(w.next_action(false, false), WorkerAction::Poll);
        w.record_outcome(PollOutcome::Failed);
    }
    assert_eq!(w.fail_count, 13);
    assert_eq!(w.next_action(false, false), WorkerAction::Stop);
}

#[test]
fn sections_reset_the_failures() {
    let mut w = TermWorker::new();
    w.record_outcome(PollOutcome::NoSections);
    w.record_outcome(PollOutcome::Failed);
    assert_eq!(w.fail_count, 2);
    w.record_outcome(PollOutcome::Sections);
    assert_eq!(w.fail_count, 0);
    assert!(!TermWorker::results_usable(0));
    assert!(TermWorker::results_usable(3));
}

#[test]
fn supervisor_runs_only_between_login_and_workers_done() {
    let mut s = Supervisor::new();
    assert!(!s.is_running());
    assert_eq!(s.action(), SupervisorAction::Login);
    assert_eq!(s.on_event(SupervisorEvent::LoginDone { success: true }), SupervisorAction::StartWorkers);
    assert!(s.is_running());
    assert_eq!(s.on_event(SupervisorEvent::WorkersDone { stop_flag: false }), SupervisorAction::Login);
    assert!(!s.is_running());
    assert_eq!(s.on_event(SupervisorEvent::LoginDone { success: true }), SupervisorAction::StartWorkers);
    assert_eq!(s.on_event(SupervisorEvent::WorkersDone { stop_flag: true }), SupervisorAction::Quit);
    assert!(!s.is_running());
}

#[test]
fn failed_initial_login_quits() {
    let mut s = Supervisor::new();
    assert_eq!(s.on_event(SupervisorEvent::LoginDone { success: false }), SupervisorAction::Quit);
    assert!(!s.is_running());
    assert_eq!(s.on_event(SupervisorEvent::LoginDone { success: true }), SupervisorAction::Quit);
}

#[test]
fn backoff_after_three_server_errors() {
    let mut r = SessionRecovery::new();
    let mut waited: u64 = 0;
    for _ in 0..3 {
        waited += r.next_delay_ms().unwrap();
        assert!(SessionRecovery::continue_after_wait(false));
        r.record(CookieEvent::ServerFailed);
    }
    waited += r.next_delay_ms().unwrap();
    assert_eq!(waited, 8000 + 9600 + 11520 + 13824);
}

#[test]
fn not_ready_cookie_does_not_count() {
    let mut r = SessionRecovery::new();
    r.record(CookieEvent::NotReady);
    assert_eq!(r.num_failures, 0);
    r.record(CookieEvent::RegisterFailed);
    assert_eq!(r.num_failures, 1);
    assert!(!SessionRecovery::continue_after_wait(true));
}

#[test]
fn recovery_gives_up_after_thirty_one_failures() {
    let mut r = SessionRecovery::new();
    for _ in 0..=30 {
        assert!(r.next_delay_ms().is_some());
        r.record(CookieEvent::ServerFailed);
    }
    assert_eq!(r.next_delay_ms(), None);
}

#[test]
fn longest_wait_is_exact() {
    let r = SessionRecovery { num_failures: 30 };
    // 8000 * 6^30 / 5^30, rounded down
    assert_eq!(r.next_delay_ms(), Some(1899010));
}

#[test]
fn registration_counts_every_failed_attempt() {
    let mut g = Registration::new();
    assert!(g.should_attempt());
    g.record(RegisterEvent::RegisterFailed);
    g.record(RegisterEvent::TermCheckFailed);
    assert_eq!(g.num_tries, 2);
    g.record(RegisterEvent::AllTermsUsable);
    assert!(!g.should_attempt());
    assert!(g.succeeded());
}

#[test]
fn registration_fails_after_the_limit() {
    let mut g = Registration::new();
    while g.should_attempt() {
        g.record(RegisterEvent::TermCheckFailed);
    }
    assert_eq!(g.num_tries, 26);
    assert!(!g.succeeded());
}
