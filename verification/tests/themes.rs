use customizable_floating_window::action::{Action, LOG_ERROR, LOG_INFO, LOG_WARN};
use customizable_floating_window::themes::{
    bundled_written, ensure_themes, has_mark, resolve_theme, restore_failed, scan_themes,
    themes_dir_failed, valid_theme_name, BundledTheme, ThemeFile,
};

fn names(list: &[&str]) -> Vec<String> {
    list.iter().map(|s| s.to_string()).collect()
}

#[test]
fn theme_name_validation() {
    assert!(valid_theme_name("ring.slint"));
    assert!(valid_theme_name("my_theme-2.slint"));
    assert!(!valid_theme_name("../evil.slint"));
    assert!(!valid_theme_name("a/b.slint"));
    assert!(!valid_theme_name("x.slint.exe"));
    assert!(!valid_theme_name(""));
    assert!(!valid_theme_name(".slint"));
    assert!(valid_theme_name(&format!("{}.slint", "a".repeat(58))));
    assert!(!valid_theme_name(&format!("{}.slint", "a".repeat(64))));
}

#[test]
fn theme_name_edges() {
    assert!(valid_theme_name("a.slint"));
    assert!(!valid_theme_name(&format!("{}.slint", "a".repeat(59))));
    assert!(!valid_theme_name(".hidden.slint"));
    assert!(!valid_theme_name("a\\b.slint"));
    assert!(!valid_theme_name("ring.SLINT"));
    assert!(!valid_theme_name("主题.slint"));
    assert!(!valid_theme_name("a b.slint"));
    assert!(valid_theme_name("a..slint"));
    assert!(!valid_theme_name("slint"));
}

#[test]
fn theme_lists_are_sorted_and_filtered() {
    let found = names(&["ring.slint", "notes.txt", "Pill.slint", "a.slint", ".x.slint", "a-b.slint"]);
    assert_eq!(scan_themes(&found), names(&["Pill.slint", "a-b.slint", "a.slint", "ring.slint"]));
    assert_eq!(scan_themes(&names(&[])), names(&[]));
    assert_eq!(scan_themes(&names(&["b.slint", "ab.slint", "abc.slint"])),
        names(&["ab.slint", "abc.slint", "b.slint"]));
}

#[test]
fn only_factory_themes_are_refreshed() {
    let source = "// cfw-bundled: 2\nexport component A {}".to_string();
    let held = |content: &[u8]| ThemeFile::Held(content.to_vec());
    let cases = vec![
        (ThemeFile::Missing, true),
        (held(b"// cfw-bundled: 1\nexport component A {}"), true),
        (held(b"export component Mine {}"), false),
        (held(source.as_bytes()), false),
        (held(b"cfw-bundled: mine\nexport component Mine {}"), false),
        // bytes that are no text: the mark decides here too
        (held(b"// cfw-bundled: 1\n\xff"), true),
        (held(b"\xc3// cfw-bundled: 1"), true),
        (held(b"\xff\xfe mine"), false),
        (held(b""), false),
        (ThemeFile::Unreadable, false),
    ];
    let bundled: Vec<BundledTheme> = (0..cases.len())
        .map(|i| BundledTheme { name: format!("t{i}.slint"), source: source.clone() })
        .collect();
    let (existing, expected): (Vec<ThemeFile>, Vec<bool>) = cases.into_iter().unzip();
    let plan = ensure_themes(&bundled, &existing);
    assert_eq!(plan, expected);
    // once that is done, nothing is left to write
    let after: Vec<ThemeFile> = existing
        .into_iter()
        .zip(plan)
        .map(|(old, write)| if write { held(source.as_bytes()) } else { old })
        .collect();
    assert_eq!(ensure_themes(&bundled, &after), vec![false; after.len()]);
    assert!(has_mark(&b"x // cfw-bundled:".to_vec()));
    assert!(!has_mark(&b"//cfw-bundled:".to_vec()));
}

#[test]
fn theme_file_reports() {
    assert_eq!(bundled_written("ring.slint", true, &None), vec![Action::Log {
        level: LOG_INFO,
        text: "bundled theme upgraded: ring.slint".into(),
    }]);
    assert_eq!(bundled_written("ring.slint", false, &None), vec![]);
    assert_eq!(bundled_written("ring.slint", true, &Some("full".into())), vec![Action::Log {
        level: LOG_WARN,
        text: "cannot write bundled theme ring.slint: full".into(),
    }]);
    assert_eq!(themes_dir_failed("denied"), Action::Log {
        level: LOG_ERROR,
        text: "cannot create themes dir: denied".into(),
    });
    assert_eq!(restore_failed("pill.slint", "denied"), Action::Log {
        level: LOG_WARN,
        text: "restore pill.slint failed: denied".into(),
    });
}

#[test]
fn missing_themes_fall_back_to_bundled_ones() {
    let bundled = names(&["ring.slint", "pill.slint", "minimal.slint"]);
    assert_eq!(resolve_theme("x.slint", true, &bundled, &vec![true, true, true]), "x.slint");
    assert_eq!(resolve_theme("x.slint", false, &bundled, &vec![false, true, true]), "pill.slint");
    assert_eq!(resolve_theme("x.slint", false, &bundled, &vec![true, true, true]), "ring.slint");
    assert_eq!(resolve_theme("x.slint", false, &bundled, &vec![false, false, false]), "x.slint");
}
