use customizable_floating_window::action::{Action, LOG_DEBUG, LOG_ERROR, LOG_INFO, LOG_WARN};
use customizable_floating_window::config::RawCfg;
use customizable_floating_window::panel::{
    config_failed, request, save_theme, save_theme_draft, theme_saved, theme_staged, Input, Request,
};
use customizable_floating_window::plugin::{Core, HelperState};
use customizable_floating_window::protocol::Cmd;

const START: u64 = 3_600_000_000_000;

fn input() -> Input {
    Input {
        cfg: RawCfg {
            theme: None,
            visible: None,
            update_ms: None,
            wdis_enabled: None,
            wdis_hold_ms: None,
            window_x: None,
            window_y: None,
        },
        draft_name: None,
        draft: None,
        path: None,
        level: String::new(),
        message: None,
    }
}

fn log(level: i32, text: &str) -> Action {
    Action::Log { level, text: text.to_string() }
}

fn config(key: &str, json: &str) -> Action {
    Action::SetConfig { key: key.to_string(), json: json.to_string() }
}

#[test]
fn requests_by_name() {
    assert_eq!(request("apply-theme"), Request::ApplyTheme);
    assert_eq!(request("reload"), Request::ApplyTheme);
    assert_eq!(request("restart-helper"), Request::RestartHelper);
    assert_eq!(request("stage-theme"), Request::StageTheme);
    assert_eq!(request("Show"), Request::Other);
}

#[test]
fn applying_a_theme() {
    let mut core = Core::new(START);
    let mut i = input();
    i.cfg.theme = Some("\"pill.slint\"".into());
    assert_eq!(core.ui_action("apply-theme", &i, START), vec![
        Action::ListThemes { force: true },
        Action::SpawnHelper { theme: "pill.slint".into(), x: -1, y: -1 },
    ]);
    core.helper = Some(START);
    i.cfg.theme = Some("\"minimal.slint\"".into());
    assert_eq!(core.ui_action("reload", &i, START), vec![
        Action::ListThemes { force: true },
        Action::SendTheme { theme: "minimal.slint".into() },
    ]);
}

#[test]
fn restarting_the_window() {
    let mut core = Core::new(START);
    core.helper = Some(START);
    core.restarts = 6;
    core.gave_up = true;
    core.crash_notified = true;
    assert_eq!(core.ui_action("restart-helper", &input(), START + 5), vec![
        Action::StopHelper,
        Action::SpawnHelper { theme: "ring.slint".into(), x: -1, y: -1 },
    ]);
    assert_eq!((core.restarts, core.gave_up, core.crash_notified), (0, false, false));
    assert_eq!((core.helper, core.next_retry), (None, START + 5));
    let mut i = input();
    i.cfg.visible = Some("false".into());
    assert_eq!(core.ui_action("restart-helper", &i, START), vec![]);
}

#[test]
fn showing_and_hiding() {
    let mut core = Core::new(START);
    core.cfg.visible = false;
    core.gave_up = true;
    assert_eq!(core.ui_action("show", &input(), START), vec![
        config("visible", "true"),
        Action::SpawnHelper { theme: "ring.slint".into(), x: -1, y: -1 },
    ]);
    assert!(core.cfg.visible && !core.gave_up);
    core.helper = Some(START);
    assert_eq!(core.ui_action("show", &input(), START), vec![
        config("visible", "true"),
        Action::Send(Cmd::Visible { show: true }),
    ]);
    assert_eq!(core.ui_action("hide", &input(), START), vec![
        config("visible", "false"),
        Action::Send(Cmd::Visible { show: false }),
    ]);
    assert!(!core.cfg.visible);
    assert_eq!(core.helper_state, HelperState::Hidden);
    core.helper = None;
    assert_eq!(core.ui_action("hide", &input(), START), vec![config("visible", "false")]);
}

#[test]
fn resetting_the_position() {
    let mut core = Core::new(START);
    core.win_pos = Some((1, 2));
    core.pending_pos = Some((3, 4));
    core.helper = Some(START);
    assert_eq!(core.ui_action("reset-pos", &input(), START), vec![
        config("windowX", "null"),
        config("windowY", "null"),
        Action::Send(Cmd::PosDefault),
    ]);
    assert_eq!((core.win_pos, core.pending_pos), (None, None));
}

#[test]
fn snapshots_need_a_path_and_a_window() {
    let mut core = Core::new(START);
    let mut i = input();
    i.path = Some("/tmp/a.png".into());
    assert_eq!(core.ui_action("snapshot", &i, START), vec![]);
    core.helper = Some(START);
    assert_eq!(core.ui_action("snapshot", &i, START),
        vec![Action::Send(Cmd::Snapshot { path: "/tmp/a.png".into() })]);
    i.path = Some("".into());
    assert_eq!(core.ui_action("snapshot", &i, START), vec![]);
    i.path = None;
    assert_eq!(core.ui_action("snapshot", &i, START), vec![]);
}

#[test]
fn drafts_are_checked() {
    let bad_name = config("themeError", "\"文件名无效：仅允许字母数字 . _ - 且以 .slint 结尾\"");
    assert_eq!(save_theme("a/b.slint".into(), "x".into()), vec![bad_name]);
    assert_eq!(save_theme("a.slint".into(), " \n\t".into()),
        vec![config("themeError", "\"主题为空\"")]);
    let big = "x".repeat(512 * 1024 + 1);
    assert_eq!(save_theme("a.slint".into(), big), vec![config("themeError", "\"主题过大（>512KB）\"")]);
    // bytes count, not characters
    let wide = "字".repeat(512 * 1024 / 3 + 1);
    assert_eq!(save_theme("a.slint".into(), wide), vec![config("themeError", "\"主题过大（>512KB）\"")]);
    let most = "x".repeat(512 * 1024);
    assert_eq!(save_theme("a.slint".into(), most.clone()),
        vec![Action::WriteTheme { name: "a.slint".into(), source: most }]);
}

#[test]
fn drafts_come_from_the_configuration() {
    let mut core = Core::new(START);
    let mut i = input();
    i.draft_name = Some("\"new.slint\"".into());
    i.draft = Some("\"line\\n\"".into());
    assert_eq!(core.ui_action("save-theme", &i, START),
        vec![Action::WriteTheme { name: "new.slint".into(), source: "line\n".into() }]);
    assert_eq!(save_theme_draft(&None, &None).len(), 1);
    assert_eq!(save_theme_draft(&Some("\"new.slint\"".into()), &Some("oops".into())),
        vec![config("themeError", "\"主题为空\"")]);
    assert_eq!(core.ui_action("stage-theme", &i, START),
        vec![Action::ReadTheme { name: "new.slint".into() }]);
    i.draft_name = Some("\"../x\"".into());
    assert_eq!(core.ui_action("stage-theme", &i, START),
        vec![Action::ReadTheme { name: "ring.slint".into() }]);
    i.draft_name = None;
    assert_eq!(core.ui_action("stage-theme", &i, START),
        vec![Action::ReadTheme { name: "ring.slint".into() }]);
}

#[test]
fn theme_files_report_back() {
    assert_eq!(theme_saved("/t/a.slint", &None), vec![
        log(LOG_INFO, "theme saved: /t/a.slint"),
        config("themeError", "\"\""),
        Action::ListThemes { force: true },
    ]);
    assert_eq!(theme_saved("/t/a.slint", &Some("no \"room\"".into())),
        vec![config("themeError", "\"写入失败: no \\\"room\\\"\"")]);
    assert_eq!(theme_staged("a.slint", &Ok("a\"b".into())), config("themeDraft", "\"a\\\"b\""));
    assert_eq!(theme_staged("a.slint", &Err("gone".into())),
        log(LOG_WARN, "stage-theme: cannot read a.slint: gone"));
    assert_eq!(config_failed("status"), log(LOG_WARN, "set_config(status) failed"));
}

#[test]
fn restoring_and_logging() {
    let mut core = Core::new(START);
    assert_eq!(core.ui_action("restore-themes", &input(), START), vec![
        Action::RestoreThemes,
        Action::ListThemes { force: true },
        log(LOG_INFO, "bundled themes restored"),
    ]);
    let mut i = input();
    assert_eq!(core.ui_action("log", &i, START), vec![]);
    i.message = Some("m".into());
    for (name, level) in
        [("error", LOG_ERROR), ("warn", LOG_WARN), ("debug", LOG_DEBUG), ("info", LOG_INFO), ("", LOG_INFO)]
    {
        i.level = name.into();
        assert_eq!(core.ui_action("log", &i, START), vec![log(level, "[panel] m")]);
    }
    assert_eq!(core.ui_action("dance", &i, START), vec![log(LOG_DEBUG, "ignoring ui action dance")]);
}

#[test]
fn theme_lists_are_published_on_change() {
    let mut core = Core::new(START);
    let names: Vec<String> =
        ["ring.slint", "x.txt", "a.slint"].iter().map(|s| s.to_string()).collect();
    let write = vec![config("themeList", "[\"a.slint\",\"ring.slint\"]")];
    assert_eq!(core.publish_theme_list(&names, false), write);
    assert_eq!(core.publish_theme_list(&names, false), vec![]);
    assert_eq!(core.publish_theme_list(&names, true), write);
    assert_eq!(core.publish_theme_list(&vec![], false), vec![config("themeList", "[]")]);
}
