use customizable_floating_window::action::{Action, LOG_DEBUG, LOG_ERROR, LOG_INFO, LOG_WARN};
use customizable_floating_window::config::{Cfg, ParsedCfg, RawCfg};
use customizable_floating_window::plugin::{
    Core, HelperState, HEALTHY_RESET, MAX_RESTARTS, POS_WRITE, RESTART_CAP,
};
use customizable_floating_window::protocol::{Cmd, Ev};

const START: u64 = 3_600_000_000_000;
const SECOND: u64 = 1_000_000_000;

fn raw() -> RawCfg {
    RawCfg {
        theme: None,
        visible: None,
        update_ms: None,
        wdis_enabled: None,
        wdis_hold_ms: None,
        window_x: None,
        window_y: None,
    }
}

fn log(level: i32, text: &str) -> Action {
    Action::Log { level, text: text.to_string() }
}

fn config(key: &str, json: &str) -> Action {
    Action::SetConfig { key: key.to_string(), json: json.to_string() }
}

fn spawn(theme: &str, x: i32, y: i32) -> Action {
    Action::SpawnHelper { theme: theme.to_string(), x, y }
}

#[test]
fn settings_at_first() {
    let cfg = Cfg::new();
    assert_eq!(cfg, Cfg {
        theme: "ring.slint".to_string(),
        visible: true,
        update_ms: 100,
        wdis_enabled: true,
        wdis_hold_ms: 4000,
    });
}

#[test]
fn settings_are_read_and_bounded() {
    let mut core = Core::new(START);
    let mut r = raw();
    r.theme = Some("\"pill.slint\"".into());
    r.visible = Some(" false\n".into());
    r.update_ms = Some("5".into());
    r.wdis_enabled = Some("false".into());
    r.wdis_hold_ms = Some("90000".into());
    r.window_x = Some("-1200".into());
    r.window_y = Some("40".into());
    core.load_cfg(&r);
    assert_eq!(core.cfg.theme, "pill.slint");
    assert!(!core.cfg.visible);
    assert_eq!(core.cfg.update_ms, 50);
    assert!(!core.cfg.wdis_enabled);
    assert_eq!(core.cfg.wdis_hold_ms, 30_000);
    assert_eq!(core.win_pos, Some((-1200, 40)));
    // what cannot be read keeps the setting, a position needs both numbers
    let mut r = raw();
    r.theme = Some("\"../evil.slint\"".into());
    r.visible = Some("1".into());
    r.update_ms = Some("250.5".into());
    r.wdis_hold_ms = Some("\"2000\"".into());
    r.window_x = Some("null".into());
    r.window_y = Some("40".into());
    core.load_cfg(&r);
    assert_eq!(core.cfg.theme, "pill.slint");
    assert!(!core.cfg.visible);
    assert_eq!(core.cfg.update_ms, 50);
    assert_eq!(core.cfg.wdis_hold_ms, 30_000);
    assert_eq!(core.win_pos, None);
}

#[test]
fn json_scalars_are_read_like_serde_json() {
    let texts = [
        "0", "-0", "00", "01", "7", " 7 ", "+7", "1e3", "1.0", "-5", "- 5", "2147483647",
        "2147483648", "-2147483648", "-2147483649", "18446744073709551615",
        "18446744073709551616", "true", "false", " true", "True", "null", "", "\"1\"", "7x", "7 7",
        "\t-12\r\n", "\u{a0}7",
    ];
    for t in texts {
        let mut r = raw();
        r.visible = Some(t.into());
        r.update_ms = Some(t.into());
        r.window_x = Some(t.into());
        r.theme = Some(t.into());
        let p = r.parse();
        assert_eq!(p.visible, serde_json::from_str::<bool>(t).ok(), "{t:?}");
        assert_eq!(p.update_ms, serde_json::from_str::<u64>(t).ok(), "{t:?}");
        assert_eq!(p.window_x, serde_json::from_str::<i32>(t).ok(), "{t:?}");
        assert_eq!(p.theme, serde_json::from_str::<String>(t).ok(), "{t:?}");
    }
}

#[test]
fn written_positions_are_read_back() {
    for (x, y) in [(0, 0), (968, 258), (-1, 5), (i32::MIN, i32::MAX)] {
        let mut core = Core::new(START);
        core.pending_pos = Some((x, y));
        let todo = core.flush_pos(true, START);
        assert_eq!(todo, vec![
            config("windowX", &x.to_string()),
            config("windowY", &y.to_string()),
        ]);
        assert_eq!(core.win_pos, Some((x, y)));
        let mut r = raw();
        r.window_x = Some(x.to_string());
        r.window_y = Some(y.to_string());
        assert_eq!(r.parse().saved_position(), Some((x, y)));
    }
}

#[test]
fn positions_are_written_once_a_second() {
    let mut core = Core::new(START);
    let moved = Ev::Moved { x: 10, y: 20 };
    assert_eq!(core.handle_helper_event(&moved, START), vec![]);
    assert_eq!(core.pending_pos, Some((10, 20)));
    assert_eq!(core.handle_helper_event(&moved, START + POS_WRITE - 1), vec![]);
    assert_eq!(core.handle_helper_event(&Ev::Moved { x: 11, y: 21 }, START + POS_WRITE), vec![
        config("windowX", "11"),
        config("windowY", "21"),
    ]);
    assert_eq!(core.flush_pos(false, START + 2 * POS_WRITE), vec![]);
}

#[test]
fn helper_is_started_and_watched() {
    let mut core = Core::new(START);
    let none: Vec<String> = vec![];
    assert_eq!(core.supervise_helper(false, "0.0", &none, START), vec![spawn("ring.slint", -1, -1)]);
    assert_eq!(core.spawned("/t/ring.slint", START), vec![
        log(LOG_INFO, "helper spawned (theme /t/ring.slint)"),
    ]);
    assert_eq!(core.helper_state, HelperState::Starting);
    assert_eq!(core.supervise_helper(false, "0.1", &none, START + SECOND), vec![]);
    // it dies: half a second later it is started again
    let tail = vec!["one".to_string(), "two".to_string()];
    assert_eq!(core.supervise_helper(true, "2.0", &tail, START + 2 * SECOND), vec![
        log(LOG_WARN, "helper exited after 2.0s; stderr tail: one | two"),
    ]);
    assert_eq!(core.helper_state, HelperState::Crashed);
    assert_eq!(core.next_retry, START + 2 * SECOND + SECOND / 2);
    assert_eq!(core.restarts, 1);
    assert_eq!(core.supervise_helper(false, "", &none, START + 2 * SECOND + SECOND / 2 - 1), vec![]);
    core.win_pos = Some((7, -8));
    assert_eq!(core.supervise_helper(false, "", &none, START + 2 * SECOND + SECOND / 2),
        vec![spawn("ring.slint", 7, -8)]);
}

#[test]
fn repeated_failures_back_off_and_end() {
    let mut core = Core::new(START);
    let waits = [500, 1000, 2000, 4000, 8000];
    let mut now = START;
    for wait in waits {
        assert_eq!(core.spawn_failed("gone", now), vec![log(LOG_ERROR, "helper spawn failed: gone")]);
        assert_eq!(core.next_retry - now, wait * SECOND / 1000);
        assert!(core.next_retry - now <= RESTART_CAP);
        assert!(!core.gave_up);
        now = core.next_retry;
    }
    assert_eq!(core.spawn_failed("gone", now), vec![
        log(LOG_ERROR, "helper spawn failed: gone"),
        log(LOG_ERROR, "helper crashed 6× — giving up. stderr tail: "),
        Action::Notify {
            title: "悬浮窗 FloatingWindow".into(),
            body: "悬浮窗进程反复崩溃，已停止重试。可在插件面板中重启或更换主题。".into(),
        },
    ]);
    assert_eq!(core.restarts, MAX_RESTARTS);
    assert!(core.gave_up && core.crash_notified);
    assert_eq!(core.supervise_helper(false, "", &vec![], now + 1000 * SECOND), vec![]);
    // the user is not told twice
    assert_eq!(core.spawn_failed("gone", now), vec![log(LOG_ERROR, "helper spawn failed: gone")]);
    // a theme that shows up again clears all of it
    core.handle_helper_event(&Ev::Ready { theme: "t".into(), reloaded: false }, now);
    assert_eq!((core.restarts, core.gave_up, core.crash_notified), (0, false, false));
    assert_eq!(core.helper_state, HelperState::Running);
}

#[test]
fn a_long_run_clears_the_count() {
    let mut core = Core::new(START);
    core.restarts = 4;
    core.helper = Some(START);
    core.supervise_helper(false, "", &vec![], START + HEALTHY_RESET - 1);
    assert_eq!(core.restarts, 4);
    core.supervise_helper(false, "", &vec![], START + HEALTHY_RESET);
    assert_eq!(core.restarts, 0);
    core.restarts = 4;
    core.supervise_helper(true, "60.0", &vec![], START + HEALTHY_RESET);
    assert_eq!(core.restarts, 1);
}

#[test]
fn a_hidden_window_is_left_alone() {
    let mut core = Core::new(START);
    core.helper = Some(START);
    assert_eq!(core.handle_helper_event(&Ev::Hide, START), vec![config("visible", "false")]);
    assert!(!core.cfg.visible);
    assert_eq!(core.supervise_helper(true, "1.0", &vec![], START + SECOND), vec![
        log(LOG_WARN, "helper exited after 1.0s; stderr tail: "),
    ]);
    assert_eq!(core.helper_state, HelperState::Hidden);
    assert_eq!(core.restarts, 0);
    assert_eq!(core.supervise_helper(false, "", &vec![], START + 100 * SECOND), vec![]);
}

#[test]
fn switches_are_toggled_through_the_host() {
    let mut core = Core::new(START);
    assert_eq!(core.handle_helper_event(&Ev::Mute, START), vec![Action::SetMuted { on: true }]);
    assert_eq!(core.muted_reply(true, true), vec![]);
    assert!(core.muted);
    assert_eq!(core.handle_helper_event(&Ev::Mute, START), vec![Action::SetMuted { on: false }]);
    assert_eq!(core.muted_reply(false, false), vec![log(LOG_WARN, "set_muted rejected by host")]);
    assert!(core.muted);
    assert_eq!(core.handle_helper_event(&Ev::Monitoring, START),
        vec![Action::SetMonitoring { on: true }]);
    assert_eq!(core.monitoring_reply(true, false),
        vec![log(LOG_WARN, "set_monitoring rejected by host")]);
    assert!(!core.monitoring);
    assert_eq!(core.monitoring_reply(true, true), vec![]);
    assert!(core.monitoring);
}

#[test]
fn menu_and_log_events() {
    let mut core = Core::new(START);
    let reload = Ev::Menu { action: "reload-theme".into() };
    assert_eq!(core.handle_helper_event(&reload, START), vec![spawn("ring.slint", -1, -1)]);
    core.helper = Some(START);
    assert_eq!(core.handle_helper_event(&reload, START),
        vec![Action::SendTheme { theme: "ring.slint".into() }]);
    core.helper = None;
    core.cfg.visible = false;
    assert_eq!(core.handle_helper_event(&reload, START), vec![]);
    assert_eq!(core.handle_helper_event(&Ev::Menu { action: "about".into() }, START),
        vec![log(LOG_INFO, "theme menu action: about")]);
    assert_eq!(core.handle_helper_event(&Ev::Log { message: "hi".into() }, START),
        vec![log(LOG_DEBUG, "[helper] hi")]);
    assert_eq!(core.handle_helper_event(&Ev::Bye, START), vec![]);
    assert_eq!(
        core.handle_helper_event(&Ev::Ready { theme: "p.slint".into(), reloaded: true }, START),
        vec![config("themeError", "\"\""), log(LOG_INFO, "theme ready: p.slint (hot-swap)")]
    );
    assert_eq!(
        core.handle_helper_event(&Ev::Ready { theme: "p.slint".into(), reloaded: false }, START),
        vec![config("themeError", "\"\""), log(LOG_INFO, "theme ready: p.slint")]
    );
}

#[test]
fn theme_errors_are_told_once() {
    let mut core = Core::new(START);
    let bad = Ev::ThemeError { message: "line \"1\"".into() };
    let report = [log(LOG_WARN, "theme error: line \"1\""), config("themeError", "\"line \\\"1\\\"\"")];
    let first = core.handle_helper_event(&bad, START);
    assert_eq!(first.len(), 3);
    assert_eq!(first[0..2], report);
    assert_eq!(first[2], Action::Notify { title: "悬浮窗主题错误".into(), body: "line \"1\"".into() });
    assert_eq!(core.handle_helper_event(&bad, START), report);
    assert_eq!(core.handle_helper_event(&Ev::ThemeError { message: "".into() }, START), vec![]);
    let other = core.handle_helper_event(&Ev::ThemeError { message: "x".into() }, START);
    assert_eq!(other.len(), 3);
}

#[test]
fn the_end_leaves_nothing() {
    let mut core = Core::new(START);
    core.interval_set(9);
    core.helper = Some(START);
    core.pending_pos = Some((1, 2));
    assert_eq!(core.shutdown(START), vec![
        Action::ClearInterval { id: 9 },
        config("windowX", "1"),
        config("windowY", "2"),
        Action::StopHelper,
    ]);
    assert_eq!((core.interval_id, core.helper, core.pending_pos), (0, None, None));
    assert_eq!(core.helper_state, HelperState::Stopped);
    assert_eq!(core.shutdown(START), vec![]);
}

#[test]
fn settings_in_bounds_stay_so() {
    let mut cfg = Cfg::new();
    cfg.adopt(&ParsedCfg {
        theme: Some("x.slint".into()),
        visible: Some(false),
        update_ms: Some(1000),
        wdis_enabled: None,
        wdis_hold_ms: Some(0),
        window_x: None,
        window_y: None,
    });
    assert_eq!((cfg.update_ms, cfg.wdis_hold_ms, cfg.visible), (1000, 1000, false));
    cfg.adopt(&ParsedCfg {
        theme: Some("x/y.slint".into()),
        visible: None,
        update_ms: Some(u64::MAX),
        wdis_enabled: Some(false),
        wdis_hold_ms: None,
        window_x: None,
        window_y: None,
    });
    assert_eq!((cfg.theme.as_str(), cfg.update_ms, cfg.wdis_enabled), ("x.slint", 1000, false));
}

#[test]
fn transcripts_reach_a_window_that_wants_them() {
    let mut core = Core::new(START);
    assert_eq!(core.show_transcript("hi".into()), vec![]);
    core.helper = Some(START);
    assert_eq!(core.show_transcript("hi".into()),
        vec![Action::Send(Cmd::Wdis { text: "hi".into(), hold_ms: 4000 })]);
    core.cfg.wdis_enabled = false;
    assert_eq!(core.show_transcript("hi".into()), vec![]);
}
