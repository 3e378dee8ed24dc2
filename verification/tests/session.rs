use customizable_floating_window::session::{format_duration, Session, FALLBACK_END_TICKS};

#[test]
fn formats_durations() {
    assert_eq!(format_duration(0), "00:00");
    assert_eq!(format_duration(65), "01:05");
    assert_eq!(format_duration(3599), "59:59");
    assert_eq!(format_duration(3600), "1:00:00");
    assert_eq!(format_duration(3600 * 5 + 61), "5:01:01");
}

#[test]
fn event_driven_session() {
    let mut s = Session::new();
    assert!(!s.snapshot().connected);
    s.device_connected("wifi", "MicYou Mobile");
    assert!(s.snapshot().connected);
    // streaming hiccups must NOT end an authoritative session
    for _ in 0..100 {
        s.observe_streaming(false);
    }
    let snap = s.snapshot();
    assert!(snap.connected && snap.label == "MicYou Mobile" && snap.mode == "wifi");
    s.device_disconnected();
    assert!(!s.snapshot().connected);
    assert_eq!(s.snapshot().seconds, 0);
}

#[test]
fn inferred_session_starts_and_ends_with_streaming() {
    let mut s = Session::new();
    s.observe_streaming(true);
    assert!(s.snapshot().connected);
    // grace window: a few false ticks don't end it
    for _ in 0..FALLBACK_END_TICKS - 1 {
        s.observe_streaming(false);
    }
    assert!(s.snapshot().connected);
    s.observe_streaming(false);
    assert!(!s.snapshot().connected);
}

#[test]
fn event_upgrades_inferred_session() {
    let mut s = Session::new();
    s.observe_streaming(true);
    assert!(s.snapshot().label.is_empty());
    s.device_connected("usb", "Pixel");
    let snap = s.snapshot();
    assert_eq!(snap.label, "Pixel");
    // now authoritative: streaming=false no longer ends it
    for _ in 0..FALLBACK_END_TICKS * 2 {
        s.observe_streaming(false);
    }
    assert!(s.snapshot().connected);
}

#[test]
fn seconds_are_counted_from_the_connection() {
    let mut s = Session::new();
    s.device_connected("wifi", "Phone");
    let start = std::time::Instant::now();
    while start.elapsed().as_millis() < 1100 {}
    assert!(s.snapshot().seconds >= 1);
    assert!(s.snapshot().seconds < 15);
    // a new connection starts the clock anew
    s.device_connected("usb", "Other");
    assert_eq!(s.snapshot().seconds, 0);
    assert_eq!(s.snapshot().mode, "usb");
}

#[test]
fn snapshot_after_a_known_time() {
    let mut s = Session::default();
    assert_eq!(s.snapshot_after(77).seconds, 0);
    s.device_connected("web", "Tab");
    let snap = s.snapshot_after(77);
    assert_eq!(snap.seconds, 77);
    assert_eq!((snap.connected, snap.label.as_str(), snap.mode.as_str()), (true, "Tab", "web"));
}

#[test]
fn streaming_again_resets_the_grace() {
    let mut s = Session::new();
    s.observe_streaming(true);
    for _ in 0..FALLBACK_END_TICKS - 1 {
        s.observe_streaming(false);
    }
    s.observe_streaming(true);
    for _ in 0..FALLBACK_END_TICKS - 1 {
        s.observe_streaming(false);
    }
    assert!(s.snapshot().connected);
    s.observe_streaming(false);
    assert!(!s.snapshot().connected);
    // silence opens nothing
    s.observe_streaming(false);
    assert!(!s.snapshot().connected);
}

#[test]
fn long_durations() {
    assert_eq!(format_duration(60), "01:00");
    assert_eq!(format_duration(59), "00:59");
    assert_eq!(format_duration(360_000), "100:00:00");
    assert_eq!(format_duration(u64::MAX), "5124095576030431:00:15");
}

#[test]
fn a_disconnection_is_not_undone() {
    let mut s = Session::new();
    s.observe_streaming(true);
    s.device_disconnected();
    s.observe_streaming(true);
    assert!(!s.snapshot().connected);
    // the next rise of the flag opens a session
    s.observe_streaming(false);
    assert!(!s.snapshot().connected);
    s.observe_streaming(true);
    assert!(s.snapshot().connected);
}

#[test]
fn seconds_do_not_fall() {
    let mut s = Session::start();
    s.device_connected_at("wifi", "Phone", 1_500_000_000);
    let seconds: Vec<u64> = [0, 1_500_000_000, 2_499_999_999, 2_500_000_000, 91_500_000_000]
        .into_iter()
        .map(|now| s.snapshot_at(now).seconds)
        .collect();
    assert_eq!(seconds, vec![0, 0, 0, 1, 90]);
    let mut s = Session::new();
    s.device_connected("wifi", "Phone");
    let now = std::time::Instant::now();
    let later = now + std::time::Duration::from_secs(7);
    assert_eq!(s.snapshot_on(now).seconds, 0);
    assert_eq!(s.snapshot_on(later).seconds, 7);
}
