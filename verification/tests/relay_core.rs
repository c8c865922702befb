use axioo_qc_client::buffer::format_log_entry;
use axioo_qc_client::buffer::EventBuffer;
use axioo_qc_client::classify::is_disconnect_error;
use axioo_qc_client::classify::str_contains;
use axioo_qc_client::provider::ProviderLifecycle;
use axioo_qc_client::provider::ProviderPhase;
use axioo_qc_client::registry::ConnectionRegistry;
use axioo_qc_client::registry::RegistryOp;
use axioo_qc_client::server::accept_step;
use axioo_qc_client::server::AcceptDecision;
use axioo_qc_client::session::push_count;
use axioo_qc_client::session::replay_delivered;
use axioo_qc_client::session::Session;
use axioo_qc_client::session::SessionEvent;
use axioo_qc_client::session::SessionState;
use axioo_qc_client::shutdown::is_shutdown_chord;
use axioo_qc_client::shutdown::poll_triggers;
use axioo_qc_client::shutdown::ShutdownController;
use axioo_qc_client::shutdown::TriggerCheck;

#[test]
fn drain_returns_entries_in_order_then_nothing() {
    let mut buf = EventBuffer::new();
    buf.append_log("e1".to_string());
    buf.append_log("e2".to_string());
    buf.append_log("e3".to_string());
    let first = buf.get_logs();
    assert_eq!(first, vec!["e1".to_string(), "e2".to_string(), "e3".to_string()]);
    let second = buf.get_logs();
    assert!(second.is_empty());
}

#[test]
fn callback_queue_is_independent_of_log_queue() {
    let mut buf = EventBuffer::new();
    buf.append_log("log line".to_string());
    buf.append_callback_event("push payload".to_string());
    let events = buf.get_callback_data();
    assert_eq!(events, vec!["push payload".to_string()]);
    assert!(buf.get_callback_data().is_empty());
    let logs = buf.get_logs();
    assert_eq!(logs, vec!["log line".to_string()]);
}

#[test]
fn empty_buffer_drains_empty() {
    let mut buf = EventBuffer::new();
    assert!(buf.get_logs().is_empty());
    assert!(buf.get_callback_data().is_empty());
}

#[test]
fn log_entry_is_level_in_brackets_then_message() {
    let entry = format_log_entry("INFO", "cache primed");
    assert_eq!(entry, "[INFO] cache primed".to_string());
}

#[test]
fn shutdown_fires_exactly_once() {
    let mut ctl = ShutdownController::new();
    assert!(!ctl.is_fired());
    let first = ctl.notify_once();
    assert!(first);
    assert!(ctl.is_fired());
    let second = ctl.notify_once();
    assert!(!second);
    assert!(ctl.is_fired());
}

#[test]
fn connection_count_over_interleaved_joins_and_leaves() {
    let mut reg = ConnectionRegistry::new();
    assert_eq!(reg.active_count(), 0);
    reg.client_connected();
    reg.client_connected();
    assert_eq!(reg.active_count(), 2);
    reg.client_disconnected();
    assert_eq!(reg.active_count(), 1);
    reg.client_connected();
    assert_eq!(reg.active_count(), 2);
    reg.client_disconnected();
    reg.client_disconnected();
    assert_eq!(reg.active_count(), 0);
}

#[test]
fn registry_applies_session_ops() {
    let mut reg = ConnectionRegistry::new();
    reg.apply(RegistryOp::Join);
    assert_eq!(reg.active_count(), 1);
    reg.apply(RegistryOp::Stay);
    assert_eq!(reg.active_count(), 1);
    reg.apply(RegistryOp::Leave);
    assert_eq!(reg.active_count(), 0);
}

#[test]
fn handshake_success_joins_and_failure_never_counts() {
    let mut ok = Session::new();
    assert_eq!(ok.state, SessionState::Connecting);
    let op = ok.step(SessionEvent::HandshakeSucceeded);
    assert_eq!(op, RegistryOp::Join);
    assert_eq!(ok.state, SessionState::Streaming);

    let mut failed = Session::new();
    let op = failed.step(SessionEvent::HandshakeFailed);
    assert_eq!(op, RegistryOp::Stay);
    assert_eq!(failed.state, SessionState::Closed);
}

#[test]
fn reset_class_send_failure_closes_and_leaves_once() {
    for text in ["error 10053 aborted", "os error 10054", "write failed: broken pipe"] {
        let mut s = Session::new();
        s.step(SessionEvent::HandshakeSucceeded);
        let op = s.step(SessionEvent::SendFailed(text.to_string()));
        assert_eq!(op, RegistryOp::Leave);
        assert_eq!(s.state, SessionState::Closed);
        let op = s.step(SessionEvent::SendFailed(text.to_string()));
        assert_eq!(op, RegistryOp::Stay);
        assert_eq!(s.state, SessionState::Closed);
    }
}

#[test]
fn generic_send_failure_keeps_streaming() {
    let mut s = Session::new();
    s.step(SessionEvent::HandshakeSucceeded);
    let op = s.step(SessionEvent::SendFailed("some transient io oddity".to_string()));
    assert_eq!(op, RegistryOp::Stay);
    assert_eq!(s.state, SessionState::Streaming);
}

#[test]
fn provider_failures_never_end_a_session() {
    let mut s = Session::new();
    s.step(SessionEvent::HandshakeSucceeded);
    for _ in 0..5 {
        let op = s.step(SessionEvent::QueryFailed);
        assert_eq!(op, RegistryOp::Stay);
        assert_eq!(s.state, SessionState::Streaming);
    }
    let op = s.step(SessionEvent::SendSucceeded("{\"cpu\":1}".to_string()));
    assert_eq!(op, RegistryOp::Stay);
    assert_eq!(s.state, SessionState::Streaming);
}

#[test]
fn delivery_is_fifo_per_connection() {
    let events = vec![
        SessionEvent::SendSucceeded("a".to_string()),
        SessionEvent::QueryFailed,
        SessionEvent::SendSucceeded("b".to_string()),
        SessionEvent::SendFailed("anomalous but tolerated".to_string()),
        SessionEvent::SendSucceeded("c".to_string()),
    ];
    let delivered = replay_delivered(&events);
    assert_eq!(delivered, vec!["a".to_string(), "b".to_string(), "c".to_string()]);
}

#[test]
fn nothing_is_delivered_after_a_disconnect() {
    let events = vec![
        SessionEvent::SendSucceeded("a".to_string()),
        SessionEvent::SendFailed("connection reset: 10054".to_string()),
        SessionEvent::SendSucceeded("b".to_string()),
    ];
    let delivered = replay_delivered(&events);
    assert_eq!(delivered, vec!["a".to_string()]);
}

#[test]
fn push_count_matches_cadence() {
    assert_eq!(push_count(0, 1000), 0);
    assert_eq!(push_count(1, 1000), 1);
    assert_eq!(push_count(1000, 1000), 1);
    assert_eq!(push_count(1001, 1000), 2);
    assert_eq!(push_count(10, 3), 4);
    assert_eq!(push_count(9, 3), 3);
    // within one of floor(window / interval)
    let window: u64 = 10_500;
    let interval: u64 = 1000;
    let n = push_count(window, interval);
    let floor = window / interval;
    assert!(floor <= n && n <= floor + 1);
}

#[test]
fn chord_fires_only_in_foreground() {
    assert_eq!(poll_triggers(false, true, false), TriggerCheck::FireFromChord);
    assert_eq!(poll_triggers(true, true, false), TriggerCheck::KeepWatching);
    assert_eq!(poll_triggers(false, false, false), TriggerCheck::KeepWatching);
}

#[test]
fn sentinel_fires_and_chord_takes_precedence() {
    assert_eq!(poll_triggers(true, false, true), TriggerCheck::FireFromSentinel);
    assert_eq!(poll_triggers(false, false, true), TriggerCheck::FireFromSentinel);
    assert_eq!(poll_triggers(false, true, true), TriggerCheck::FireFromChord);
}

#[test]
fn shutdown_chord_is_ctrl_shift_x() {
    assert!(is_shutdown_chord('X', true, true));
    assert!(!is_shutdown_chord('X', true, false));
    assert!(!is_shutdown_chord('X', false, true));
    assert!(!is_shutdown_chord('x', true, true));
}

#[test]
fn accept_loop_policy() {
    assert_eq!(accept_step(true, true), AcceptDecision::StopAccepting);
    assert_eq!(accept_step(true, false), AcceptDecision::StopAccepting);
    assert_eq!(accept_step(false, true), AcceptDecision::SpawnSession);
    assert_eq!(accept_step(false, false), AcceptDecision::KeepAccepting);
}

#[test]
fn provider_lifecycle_runs_one_way() {
    let mut p = ProviderLifecycle::new();
    assert_eq!(p.phase, ProviderPhase::Uninitialized);
    assert!(!p.can_query());
    p.mark_initialized();
    assert!(p.can_query());
    p.mark_listener_registered();
    assert!(p.listener_registered);
    p.mark_listener_unregistered();
    assert!(!p.listener_registered);
    p.mark_cleaned();
    assert_eq!(p.phase, ProviderPhase::CleanedUp);
    assert!(!p.can_query());
}

#[test]
fn substring_search_finds_patterns() {
    assert!(str_contains("os error 10054, reset", "10054"));
    assert!(str_contains("10053", "10053"));
    assert!(str_contains("ends with broken pipe", "broken pipe"));
    assert!(str_contains("anything", ""));
    assert!(!str_contains("short", "much longer pattern"));
    assert!(!str_contains("error 10056", "10054"));
    assert!(!str_contains("", "x"));
}

#[test]
fn disconnect_classification_by_error_text() {
    assert!(is_disconnect_error("IO error: An established connection was aborted (os error 10053)"));
    assert!(is_disconnect_error("connection reset by peer (os error 10054)"));
    assert!(is_disconnect_error("failed to write: broken pipe"));
    assert!(!is_disconnect_error("timed out waiting for handshake"));
    assert!(!is_disconnect_error(""));
}
