use mgw_generic::codec::RegisterPlan;
use mgw_generic::link::{
    acquire, idle_wait, liveness_probe, ping_meter, probe_alive, probe_request, setup_modbus_context,
    Acquire, Action, ConnectAttempt, Failure, PingError, PingReport, ReadReply, SocketError, Step,
    CONNECT_TIMEOUT_SECS, IDLE_BACKOFF_SECS, LOCK_TIMEOUT_SECS, PROBE_QUANTITY,
    SETTLE_DWELL_SECS, STATUS_REGISTER_ADDRESS, VERIFY_DWELL_SECS,
};

#[test]
fn fixed_intervals_and_addresses() {
    assert_eq!(STATUS_REGISTER_ADDRESS, 1);
    assert_eq!(PROBE_QUANTITY, 1);
    assert_eq!(IDLE_BACKOFF_SECS, 5);
    assert_eq!(LOCK_TIMEOUT_SECS, 5);
    assert_eq!(CONNECT_TIMEOUT_SECS, 5);
    assert_eq!(VERIFY_DWELL_SECS, 10);
    assert_eq!(SETTLE_DWELL_SECS, 5);
}

#[test]
fn socket_error_messages() {
    assert_eq!(SocketError::Timeout.message(), "Connection attempt timed out");
    assert_eq!(
        SocketError::ConnectionFailed("refused".to_string()).message(),
        "Failed to connect: refused"
    );
    assert_eq!(SocketError::Other("boom".to_string()).message(), "An error occurred: boom");
    assert_eq!(SocketError::ConnectionFailed(String::new()).message(), "Failed to connect: ");
}

#[test]
fn socket_errors_classify_as_connect_failures() {
    assert_eq!(SocketError::Timeout.classify(), Failure::ConnectTimeout);
    assert_eq!(SocketError::ConnectionFailed("x".to_string()).classify(), Failure::ConnectFailed);
    assert_eq!(SocketError::Other("x".to_string()).classify(), Failure::ConnectFailed);
}

#[test]
fn setup_hands_out_the_connection() {
    match setup_modbus_context(ConnectAttempt::Connected(42u32)) {
        Ok(link) => assert_eq!(link, 42),
        Err(e) => panic!("a connection was turned into {:?}", e),
    }
}

#[test]
fn setup_reports_refusal_with_its_text() {
    match setup_modbus_context::<u32>(ConnectAttempt::Refused("connection refused".to_string())) {
        Err(SocketError::ConnectionFailed(msg)) => assert_eq!(msg, "connection refused"),
        other => panic!("unexpected outcome {:?}", other),
    }
}

#[test]
fn setup_reports_timeout() {
    assert!(matches!(
        setup_modbus_context::<u32>(ConnectAttempt::TimedOut),
        Err(SocketError::Timeout)
    ));
}

#[test]
fn setup_reports_bad_address_as_failed_connection() {
    match setup_modbus_context::<u32>(ConnectAttempt::BadAddress("invalid socket address".to_string()))
    {
        Err(SocketError::ConnectionFailed(msg)) => assert_eq!(msg, "invalid socket address"),
        other => panic!("unexpected outcome {:?}", other),
    }
}

#[test]
fn ping_is_ok_only_when_the_probe_ran_and_succeeded() {
    assert_eq!(ping_meter(PingReport::Exited { success: true }), Ok(()));
    assert_eq!(ping_meter(PingReport::Exited { success: false }), Err(PingError::NoAnswer));
    assert_eq!(ping_meter(PingReport::NotStarted), Err(PingError::NotExecuted));
}

#[test]
fn probe_reads_one_status_register() {
    assert_eq!(probe_request(), RegisterPlan { start_address: 1, quantity: 1 });
    assert_eq!(liveness_probe(), Action::Probe { address: 1, quantity: 1, lock_timeout: 5 });
}

#[test]
fn probe_alive_follows_the_reply_at_hand() {
    assert!(probe_alive(&ReadReply::Registers(vec![0])));
    assert!(!probe_alive(&ReadReply::Failed));
    assert!(probe_alive(&ReadReply::Registers(Vec::new())));
    let replies = [ReadReply::Registers(vec![1]), ReadReply::Failed, ReadReply::Registers(vec![1])];
    let seen: Vec<bool> = replies.iter().map(probe_alive).collect();
    assert_eq!(seen, vec![true, false, true]);
}

#[test]
fn acquire_tells_a_missing_link_from_a_busy_one() {
    assert_eq!(Acquire::ExclusiveSession.classify(), None);
    assert_eq!(Acquire::Unavailable.classify(), Some(Failure::LinkUnavailable));
    assert_eq!(Acquire::TimedOut.classify(), Some(Failure::LockTimeout));
}

#[test]
fn idle_wait_is_the_backoff() {
    assert_eq!(idle_wait(), Action::Wait { seconds: 5 });
}

#[test]
fn step_go_reports_nothing() {
    let step = Step::go(Action::Ping);
    assert_eq!(step.action, Action::Ping);
    assert_eq!(step.failure, None);
    assert!(step.readings.is_empty());
}

#[test]
fn step_fail_asks_for_the_backoff() {
    let step = Step::fail(Failure::ReadFailed);
    assert_eq!(step.action, Action::Wait { seconds: 5 });
    assert_eq!(step.failure, Some(Failure::ReadFailed));
    assert!(step.readings.is_empty());
}

#[test]
fn acquire_needs_a_published_link_and_its_lock() {
    assert_eq!(acquire(true, true), Acquire::ExclusiveSession);
    assert_eq!(acquire(true, false), Acquire::TimedOut);
    assert_eq!(acquire(false, false), Acquire::Unavailable);
    assert_eq!(acquire(false, true), Acquire::Unavailable);
}
