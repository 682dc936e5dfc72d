use streamline_control::shutdown::ShutdownSignal;

#[test]
fn fresh_signal_is_unsignaled() {
    let s = ShutdownSignal::new();
    assert!(!s.stop_requested());
}

#[test]
fn repeated_signals_are_absorbed() {
    let mut s = ShutdownSignal::new();
    assert!(s.signal());
    // Signaling again is not an error; only the first call had effect.
    assert!(!s.signal());
    assert!(!s.signal());
    assert!(s.stop_requested());
}
