use package_publisher::termination::StopReason;

#[test]
fn signal_stop_reason_and_its_text() {
    let reason = StopReason::signal_received();
    assert_eq!(reason, StopReason::SignalReceived);
    assert_eq!(reason.message(), "signal received");
}
