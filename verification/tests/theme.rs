use customizable_floating_window::members::{
    after_load, apply_smooth, apply_state, fallback_name, first_load, hide_wdis, info_text,
    load_error, reload_error, show_wdis, Derived, Given, LoadError, LoadNext, Member,
};
use customizable_floating_window::protocol::{Ev, Real, StatePayload};
use customizable_floating_window::theme::{
    check_report, compile, compile_check, pick_component, sort_remarks, CompileError, Remark,
    Severity,
};

const DOT: &str = "export component Dot inherits Window {
    in property <bool> muted;
    in property <string> session-text;
    callback mute-toggle();
    width: 34px;
}";

fn strings(list: &[&str]) -> Vec<String> {
    list.iter().map(|s| s.to_string()).collect()
}

fn amount(v: f64) -> Real {
    Real { bits: v.to_bits() }
}

#[test]
fn themes_compile() {
    let theme = match compile(DOT.to_string(), "dot.slint") {
        Ok(t) => t,
        Err(e) => panic!("{}", e.message),
    };
    assert_eq!(theme.name, "Dot");
    assert_eq!(theme.warnings, Vec::<String>::new());
}

#[test]
fn warnings_do_not_stop_a_theme() {
    let source = "export component Loose { }\nexport component Dot inherits Window { }";
    match compile(source.to_string(), "loose.slint") {
        Ok(t) => {
            assert_eq!(t.name, "Dot");
            assert_eq!(t.warnings.len(), 1);
            assert!(t.warnings[0].starts_with("[theme warning] loose.slint:1: "), "{}", t.warnings[0]);
        }
        Err(e) => panic!("{}", e.message),
    }
}

#[test]
fn broken_themes_are_reported() {
    let source = "export component Broken inherits Window { this is not slint }";
    let text = match compile(source.to_string(), "broken.slint") {
        Ok(_) => panic!("error expected"),
        Err(e) => {
            assert_eq!(e.warnings, Vec::<String>::new());
            e.message
        }
    };
    assert!(text.contains("broken.slint:1: "), "{text}");
    match compile("".to_string(), "/t/empty.slint") {
        Ok(_) => panic!("error expected"),
        Err(e) => assert_eq!(e.message, "No component found"),
    }
}

#[test]
fn well_known_components_come_first() {
    let source = "export component Other inherits Window {}
        export component MainWindow inherits Window {}
        export component FloatingWindow inherits Window {}";
    match compile(source.to_string(), "many.slint") {
        Ok(t) => assert_eq!(t.name, "MainWindow"),
        Err(e) => panic!("{}", e.message),
    }
    assert_eq!(pick_component(&strings(&["X", "FloatingWindow", "App"])), Some("App".into()));
    assert_eq!(pick_component(&strings(&["X", "FloatingWindow"])), Some("FloatingWindow".into()));
    assert_eq!(pick_component(&strings(&["X"])), Some("X".into()));
    assert_eq!(pick_component(&vec![]), None);
}

#[test]
fn a_check_lists_the_members() {
    let r = compile_check(Some(DOT.to_string()), "dot.slint");
    assert_eq!(r.code, 0);
    assert_eq!(r.out, strings(&[
        "OK dot.slint",
        "  component : Dot",
        "  properties: muted, session-text",
        "  callbacks : mute-toggle",
    ]));
    assert_eq!(r.err, Vec::<String>::new());
    let r = compile_check(None, "gone.slint");
    assert_eq!((r.code, r.out.len(), r.err), (1, 0, strings(&["cannot read gone.slint"])));
    let r = compile_check(Some("oops".into()), "bad.slint");
    assert_eq!((r.code, r.out.len(), r.err.len()), (1, 0, 1));
    assert!(r.err[0].starts_with("COMPILE ERRORS:\n"));
}

#[test]
fn warnings_come_before_the_complaint() {
    let r = check_report("t.slint", Err(CompileError {
        message: "t.slint: no exported component found".into(),
        warnings: strings(&["[theme warning] w"]),
    }));
    assert_eq!((r.code, r.out.len()), (1, 0));
    assert_eq!(r.err, strings(&[
        "[theme warning] w",
        "COMPILE ERRORS:\nt.slint: no exported component found",
    ]));
}

#[test]
fn the_built_in_theme_stands_in() {
    assert_eq!(after_load(false, false), LoadNext::Show);
    assert_eq!(after_load(true, false), LoadNext::TryBuiltin);
    assert_eq!(after_load(false, true), LoadNext::Show);
    assert_eq!(after_load(true, true), LoadNext::GiveUp);
}

#[test]
fn remarks_are_sorted() {
    let list = vec![
        Remark { severity: Severity::Warning, text: "w".to_string() },
        Remark { severity: Severity::Error, text: "e1".to_string() },
        Remark { severity: Severity::Other, text: "o".to_string() },
        Remark { severity: Severity::Error, text: "e2".to_string() },
    ];
    assert_eq!(sort_remarks(&list), (strings(&["e1", "e2"]), strings(&["[theme warning] w"])));
}

fn state() -> StatePayload {
    StatePayload {
        level: amount(0.5),
        processed: amount(0.4),
        muted: true,
        streaming: true,
        monitoring: false,
        sample_rate: 48000,
        channels: 2,
        queued_ms: amount(12.0),
        session_seconds: 62,
        session_text: "01:02".into(),
        device_label: "Phone".into(),
        device_mode: "wifi".into(),
    }
}

fn derived() -> Derived {
    Derived {
        smooth: amount(0.45),
        percent: amount(45.0),
        arc_path: "M 1 2".into(),
        khz: "48.0".into(),
        queued: "12".into(),
    }
}

fn words(name: &str, text: &str) -> Member {
    Member { name: name.to_string(), value: Given::Words(text.to_string()) }
}

fn flag(name: &str, on: bool) -> Member {
    Member { name: name.to_string(), value: Given::Flag(on) }
}

#[test]
fn only_declared_members_are_set() {
    let props = strings(&["session-text", "unknown", "muted", "sample-rate", "smooth-level"]);
    assert_eq!(apply_state(&props, &state(), &derived()), vec![
        Member { name: "smooth-level".into(), value: Given::Number(amount(0.45)) },
        flag("muted", true),
        Member { name: "sample-rate".into(), value: Given::Whole(48000) },
        words("session-text", "01:02"),
    ]);
    assert_eq!(apply_state(&vec![], &state(), &derived()), vec![]);
    let all = strings(&[
        "input-level", "processed-level", "smooth-level", "level-percent", "muted", "streaming",
        "monitoring", "sample-rate", "channels", "queued-ms", "session-seconds", "session-text",
        "device-label", "device-mode", "info-text", "arc-path",
    ]);
    let set = apply_state(&all, &state(), &derived());
    assert_eq!(set.iter().map(|m| m.name.clone()).collect::<Vec<_>>(), all);
    assert_eq!(set[14], words("info-text", "48.0kHz · 2ch · q12ms"));
    let mut idle = state();
    idle.sample_rate = 0;
    assert_eq!(info_text(&idle, &derived()), "");
}

#[test]
fn smoothing_and_transcripts() {
    let props = strings(&["bars-path", "level-percent"]);
    assert_eq!(apply_smooth(&props, amount(0.2), amount(20.0), "a", "b"), vec![
        Member { name: "level-percent".into(), value: Given::Number(amount(20.0)) },
        words("bars-path", "b"),
    ]);
    let props = strings(&["wdis-visible", "wdis-text"]);
    assert_eq!(show_wdis(&props, "hi"), vec![words("wdis-text", "hi"), flag("wdis-visible", true)]);
    assert_eq!(hide_wdis(&props), vec![flag("wdis-visible", false)]);
    assert_eq!(show_wdis(&strings(&["wdis-visible"]), "hi"), vec![flag("wdis-visible", true)]);
    assert_eq!(hide_wdis(&vec![]), vec![]);
}

#[test]
fn loading_errors() {
    let read = LoadError::Read("gone".to_string());
    let compile = LoadError::Compile("1: bad".to_string());
    let create = LoadError::Create("no platform".to_string());
    assert_eq!(load_error("a.slint", &read), "cannot read a.slint: gone");
    assert_eq!(load_error("a.slint", &compile), "1: bad");
    assert_eq!(load_error("a.slint", &create), "a.slint: a.slint: create instance: no platform");
    assert_eq!(reload_error("a.slint", &read), "cannot read a.slint: gone");
    assert_eq!(reload_error("a.slint", &create), "a.slint: create instance: no platform");
    assert!(fallback_name().contains("fallback"));
    let error = |m: &str| Some(Ev::ThemeError { message: m.to_string() });
    assert_eq!(first_load(None, None), (true, None));
    assert_eq!(first_load(Some("e".into()), None), (true, error("e")));
    assert_eq!(first_load(Some("e".into()), Some("f".into())),
        (false, error("fatal: cannot load any theme: f")));
}
