use walreceiver::conf::WalReceiverConf;
use walreceiver::ids::{shutdown_tag_matches, TenantTimelineId};
use walreceiver::receiver::{
    manager_loop_flow, LoopFlow, ManagerLoopEvent, StartError, StepDirective, WalReceiver,
};
use walreceiver::selection::{
    select_connection, ActiveConnection, ConnectionManagerStatus, SafekeeperCandidate,
    SelectionDecision,
};

fn test_conf() -> WalReceiverConf {
    WalReceiverConf {
        wal_connect_timeout: 1000,
        lagging_wal_timeout: 5000,
        max_lsn_wal_lag: 1024 * 1024,
        auth_token: None,
        availability_zone: None,
    }
}

fn test_receiver() -> WalReceiver {
    WalReceiver::new(TenantTimelineId::new(11, 22), test_conf())
}

#[test]
fn new_controller_is_idle() {
    let wr = test_receiver();
    assert!(!wr.started);
    assert_eq!(wr.status(), None);
    assert_eq!(wr.timeline.tenant_id, 11);
    assert_eq!(wr.timeline.timeline_id, 22);
}

#[test]
fn start_succeeds_once() {
    let mut wr = test_receiver();
    assert_eq!(wr.start(true), Ok(()));
    // the grant alone does not count as started: the flag is stored only
    // once the spawn succeeded
    assert!(wr.starting);
    assert!(!wr.started);
    wr.confirm_started();
    assert!(wr.started);
    assert!(!wr.starting);
}

#[test]
fn failed_spawn_falls_back_to_not_started() {
    let mut wr = test_receiver();
    assert_eq!(wr.start(true), Ok(()));
    wr.abort_start();
    assert!(!wr.started);
    assert!(!wr.starting);
    // the controller is usable again
    assert_eq!(wr.start(true), Ok(()));
}

#[test]
fn second_start_without_stop_fails() {
    // Two sequential starts without an intervening stop: the second one
    // reports already-started and exactly one manager loop stays permitted.
    let mut wr = test_receiver();
    assert_eq!(wr.start(true), Ok(()));
    // a second start mid-spawn fails too
    assert_eq!(wr.start(true), Err(StartError::AlreadyStarted));
    wr.confirm_started();
    assert_eq!(wr.start(true), Err(StartError::AlreadyStarted));
    assert!(wr.started);
    // even a start that could not resolve the timeline reports the
    // already-started condition, which is checked first
    assert_eq!(wr.start(false), Err(StartError::AlreadyStarted));
}

#[test]
fn start_on_dropped_timeline_fails() {
    let mut wr = test_receiver();
    assert_eq!(wr.start(false), Err(StartError::TimelineGone));
    assert!(!wr.started);
    assert_eq!(wr.status(), None);
    // the failure leaves the controller usable: a later start may succeed
    assert_eq!(wr.start(true), Ok(()));
}

#[test]
fn stop_clears_started_and_status() {
    let mut wr = test_receiver();
    assert_eq!(wr.start(true), Ok(()));
    wr.confirm_started();
    wr.publish_status(ConnectionManagerStatus {
        connection: Some(ActiveConnection { safekeeper_id: 7, position: 1000 }),
    });
    assert!(wr.status().is_some());
    wr.stop();
    assert!(!wr.started);
    assert_eq!(wr.status(), None);
}

#[test]
fn stop_is_idempotent() {
    let mut wr = test_receiver();
    wr.stop();
    assert!(!wr.started);
    assert_eq!(wr.status(), None);
    wr.stop();
    assert!(!wr.started);
    assert_eq!(wr.status(), None);
    // and a stopped controller can be started again
    assert_eq!(wr.start(true), Ok(()));
}

#[test]
fn status_returns_latest_published_snapshot() {
    let mut wr = test_receiver();
    assert_eq!(wr.start(true), Ok(()));
    wr.confirm_started();
    assert_eq!(wr.status(), None);
    wr.publish_status(ConnectionManagerStatus {
        connection: Some(ActiveConnection { safekeeper_id: 3, position: 10 }),
    });
    wr.publish_status(ConnectionManagerStatus {
        connection: Some(ActiveConnection { safekeeper_id: 5, position: 40 }),
    });
    let st = wr.status().unwrap();
    assert_eq!(st.connection, Some(ActiveConnection { safekeeper_id: 5, position: 40 }));
}

#[test]
fn shutdown_signal_exits_loop_before_next_step() {
    // The loop observes the shutdown signal and exits without running a
    // further selection step; teardown then clears the shared status.
    let mut wr = test_receiver();
    assert_eq!(wr.start(true), Ok(()));
    wr.confirm_started();
    wr.publish_status(ConnectionManagerStatus {
        connection: Some(ActiveConnection { safekeeper_id: 2, position: 5 }),
    });
    let flow = manager_loop_flow(ManagerLoopEvent::ShutdownRequested);
    assert_eq!(flow, LoopFlow::Exit);
    wr.manager_teardown();
    assert_eq!(wr.status(), None);
    wr.stop();
    assert!(!wr.started);
}

#[test]
fn loop_flow_follows_step_directive() {
    assert_eq!(
        manager_loop_flow(ManagerLoopEvent::StepCompleted(StepDirective::KeepRunning)),
        LoopFlow::Repeat
    );
    assert_eq!(
        manager_loop_flow(ManagerLoopEvent::StepCompleted(StepDirective::Stop)),
        LoopFlow::Exit
    );
}

#[test]
fn full_lifecycle_follows_the_controller_state_machine() {
    let mut wr = test_receiver();
    assert_eq!(wr.start(true), Ok(()));
    wr.confirm_started();

    // first step: one candidate, nothing connected yet -> connect to it
    let mut candidates: Vec<SafekeeperCandidate> = Vec::new();
    candidates.push(SafekeeperCandidate { safekeeper_id: 4, commit_position: 500 });
    let d = select_connection(&wr.conf, None, &candidates, 0);
    assert_eq!(d, SelectionDecision::Connect(4));
    let connected = ActiveConnection { safekeeper_id: 4, position: 500 };
    wr.publish_status(ConnectionManagerStatus { connection: Some(connected) });
    assert_eq!(
        manager_loop_flow(ManagerLoopEvent::StepCompleted(StepDirective::KeepRunning)),
        LoopFlow::Repeat
    );

    // later step: no progress for the full staleness timeout -> reconnect
    let d = select_connection(&wr.conf, Some(connected), &candidates, 5000);
    assert_eq!(d, SelectionDecision::Reconnect(4));

    // stop mid-connection: the loop exits on the shutdown signal, tears
    // down, and the controller returns to idle
    assert_eq!(manager_loop_flow(ManagerLoopEvent::ShutdownRequested), LoopFlow::Exit);
    wr.manager_teardown();
    wr.stop();
    assert!(!wr.started);
    assert_eq!(wr.status(), None);
}

#[test]
fn shutdown_tags_match_by_tenant_and_timeline() {
    let tag = TenantTimelineId::new(11, 22);
    assert!(shutdown_tag_matches(&tag, Some(11), Some(22)));
    assert!(shutdown_tag_matches(&tag, None, None));
    assert!(shutdown_tag_matches(&tag, Some(11), None));
    assert!(!shutdown_tag_matches(&tag, Some(12), Some(22)));
    assert!(!shutdown_tag_matches(&tag, Some(11), Some(23)));
}
