use customizable_floating_window::text::{has_bytes, join, same_bytes, same_text, signed_text, strip_prefix, trim};
use customizable_floating_window::json::quoted;
use customizable_floating_window::protocol::{carries_message, emit};
use customizable_floating_window::arc::{
    arc_commands, bar_commands, circle_commands, compact, Ring, CENTER, RADIUS, VIEWBOX,
};

#[test]
fn viewbox_geometry_constants() {
    assert_eq!(VIEWBOX as f64, 100.0);
    assert_eq!(CENTER as f64, 50.0);
}

#[test]
fn white_space_is_trimmed() {
    assert_eq!(trim("  a b\t\n"), "a b");
    assert_eq!(trim("\u{3000}字\u{85}\u{2009}"), "字");
    assert_eq!(trim(" \r\n "), "");
    assert_eq!(trim("\u{200b}x"), "\u{200b}x");
    for c in (0u32..0x3100).filter_map(char::from_u32) {
        let s = format!("{c}x{c}");
        assert_eq!(trim(&s), s.trim());
    }
}

#[test]
fn numbers_and_pieces() {
    for n in [0, 7, 10, -1, -10, 968, i32::MAX, i32::MIN] {
        assert_eq!(signed_text(n), n.to_string());
    }
    assert_eq!(join(&vec!["a".to_string(), "b".to_string(), "".to_string()], " | "), "a | b | ");
    assert_eq!(join(&vec![], ", "), "");
    assert!(has_bytes(&b"ab\xffc".to_vec(), &b"\xffc".to_vec()));
    assert!(!has_bytes(&b"ab".to_vec(), &b"abc".to_vec()));
    assert!(!has_bytes(&b"aab".to_vec(), &b"ba".to_vec()));
    assert!(has_bytes(&b"x".to_vec(), &b"".to_vec()));
    assert!(same_bytes(&b"a\x80".to_vec(), &b"a\x80".to_vec()));
    assert!(!same_bytes(&b"a".to_vec(), &b"b".to_vec()));
    assert!(!same_bytes(&b"a".to_vec(), &b"ab".to_vec()));
    assert_eq!(strip_prefix("ui:show", "ui:"), Some("show".to_string()));
    assert_eq!(strip_prefix("ui", "ui:"), None);
    assert_eq!(strip_prefix("xui:", "ui:"), None);
    assert!(same_text("é", "é"));
    assert!(!same_text("a", "ab"));
}

#[test]
fn strings_are_quoted_as_json() {
    for s in ["", "plain", "a\"b\\c", "line\nbreak\u{1}", "悬浮窗 🪟", "\u{7f}\u{2028}"] {
        let json = quoted(s);
        assert_ne!(json, s);
        assert_eq!(serde_json::from_str::<String>(&json).unwrap(), s);
        assert_eq!(json, serde_json::to_string(s).unwrap());
    }
    assert_eq!(quoted("a\"b"), "\"a\\\"b\"");
}

#[test]
fn messages_travel_as_lines() {
    assert_eq!(emit("{\"ev\":\"mute\"}"), "{\"ev\":\"mute\"}\n");
    assert!(carries_message("x"));
    assert!(!carries_message(""));
    assert!(!carries_message(" \t\r"));
}

fn ring() -> Ring {
    Ring { center: "50".into(), top: "5".into(), bottom: "95".into(), radius: "45".into() }
}

#[test]
fn ring_paths() {
    assert_eq!(RADIUS, 45);
    assert_eq!(arc_commands(&ring(), false, "95", "50"), "M 50 5 A 45 45 0 0 1 95 50");
    assert_eq!(arc_commands(&ring(), true, "5", "50"), "M 50 5 A 45 45 0 1 1 5 50");
    let full = circle_commands(&ring());
    assert_eq!(full, "M 50 5 A 45 45 0 1 1 50 95 A 45 45 0 1 1 50 5");
    assert_eq!(full.matches(" A ").count(), 2);
    assert_eq!(bar_commands("50", "30", "50", "18"), "M 50 30 L 50 18 ");
}

#[test]
fn coordinates_are_compact() {
    assert_eq!(compact("50.00"), "50");
    assert_eq!(compact("5.10"), "5.1");
    assert_eq!(compact("94.99"), "94.99");
    assert_eq!(compact("0.00"), "0");
    assert_eq!(compact("-0.00"), "-0");
    assert_eq!(compact("100.00"), "100");
}
