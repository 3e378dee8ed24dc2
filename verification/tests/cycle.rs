use customizable_floating_window::abi::mpl_result_t;
use customizable_floating_window::action::{Action, LOG_ERROR, LOG_INFO};
use customizable_floating_window::config::RawCfg;
use customizable_floating_window::cycle::{plugin_home, Stage};
use customizable_floating_window::events::{event_kind, EventKind, HostEvent};
use customizable_floating_window::plugin::{Core, HelperState};
use customizable_floating_window::protocol::{Cmd, Real, StatePayload};
use customizable_floating_window::status::{status_text, AudioState, Rounded};

const START: u64 = 3_600_000_000_000;
const SECOND: u64 = 1_000_000_000;

fn raw() -> RawCfg {
    RawCfg {
        theme: None,
        visible: None,
        update_ms: None,
        wdis_enabled: None,
        wdis_hold_ms: None,
        window_x: None,
        window_y: None,
    }
}

fn log(level: i32, text: &str) -> Action {
    Action::Log { level, text: text.to_string() }
}

fn config(key: &str, json: &str) -> Action {
    Action::SetConfig { key: key.to_string(), json: json.to_string() }
}

fn number(v: f64) -> Real {
    Real { bits: v.to_bits() }
}

fn audio(streaming: bool, muted: bool) -> AudioState {
    AudioState {
        streaming,
        sample_rate: 48000,
        channels: 1,
        input_level: number(0.5),
        processed_level: number(0.25),
        queued_ms: number(12.5),
        muted,
    }
}

fn rounded() -> Rounded {
    Rounded { level: "0.5".into(), queued_ms: "12.5".into() }
}

#[test]
fn the_start() {
    let mut r = raw();
    r.update_ms = Some("250".into());
    let (mut core, todo) =
        Core::start(START, &r, &Some("{}".into()), Some(true), None, "/p/\"themes\"");
    assert_eq!(todo, vec![
        log(LOG_INFO, "initializing against host {}"),
        Action::ListThemes { force: true },
        config("themesDir", "\"/p/\\\"themes\\\"\""),
        Action::SetPanelIcon { panel: "settings".into(), icon: "🪟".into() },
        Action::SpawnHelper { theme: "ring.slint".into(), x: -1, y: -1 },
        Action::SetInterval { ms: 250, payload: "cfw".into() },
    ]);
    assert!(core.monitoring && !core.muted);
    core.interval_set(4);
    let (code, todo) = core.finish_start(START);
    assert_eq!(code, mpl_result_t::MPL_OK);
    assert_eq!(todo, vec![log(LOG_INFO, "ready (theme ring.slint, tick 250ms, visible true)")]);
}

#[test]
fn a_start_without_a_timer_fails() {
    let mut r = raw();
    r.visible = Some("false".into());
    let (mut core, todo) = Core::start(START, &r, &None, None, Some(true), "/p");
    assert_eq!(todo.len(), 4);
    assert_eq!(core.helper_state, HelperState::Hidden);
    assert!(core.muted && !core.monitoring);
    core.interval_set(0);
    let (code, todo) = core.finish_start(START);
    assert_eq!(code, mpl_result_t::MPL_ERR_RUNTIME);
    assert_eq!(todo, vec![log(LOG_ERROR, "set_interval unavailable — plugin cannot run")]);
    assert_eq!(core.helper_state, HelperState::Stopped);
}

#[test]
fn a_home_is_needed() {
    assert_eq!(plugin_home(Some("/p".into())), Ok("/p".to_string()));
    for dir in [None, Some(String::new())] {
        assert_eq!(plugin_home(dir), Err((
            mpl_result_t::MPL_ERR_RUNTIME,
            log(LOG_ERROR, "plugin_dir unavailable — cannot locate themes"),
        )));
    }
}

#[test]
fn work_of_a_tick() {
    let mut core = Core::new(START);
    for tick in 1..=100u64 {
        let order = core.begin_tick();
        let mut expected = vec![Stage::Supervise, Stage::Events, Stage::Audio];
        if tick % 10 == 0 {
            expected.push(Stage::PollConfig);
        }
        if tick % 50 == 0 {
            expected.push(Stage::ScanThemes);
        }
        expected.push(Stage::FlushPosition);
        assert_eq!(order, expected);
    }
    assert_eq!(core.tick, 100);
}

#[test]
fn own_ticks_only() {
    let mut core = Core::new(START);
    // without a timer no tick of any timer counts
    assert!(!core.accepts_tick(5, "cfw"));
    core.interval_set(7);
    assert!(core.accepts_tick(7, "cfw"));
    assert!(!core.accepts_tick(6, "cfw"));
    assert!(!core.accepts_tick(7, "other"));
}

#[test]
fn new_settings_take_effect() {
    let mut core = Core::new(START);
    core.interval_set(3);
    core.helper = Some(START);
    core.win_pos = Some((1, 1));
    let mut r = raw();
    r.update_ms = Some("200".into());
    r.theme = Some("\"pill.slint\"".into());
    r.visible = Some("false".into());
    let (before, todo) = core.poll_cfg(&r);
    assert_eq!(todo, vec![
        Action::ClearInterval { id: 3 },
        Action::SetInterval { ms: 200, payload: "cfw".into() },
        log(LOG_INFO, "tick interval now 200ms"),
        Action::SendTheme { theme: "pill.slint".into() },
    ]);
    assert_eq!(core.settle_cfg(before, START), vec![
        Action::Send(Cmd::Visible { show: false }),
        Action::Send(Cmd::PosDefault),
    ]);
    assert_eq!(core.helper_state, HelperState::Hidden);
    // visible again, without a window
    core.helper = None;
    core.restarts = 3;
    core.gave_up = true;
    r.visible = Some("true".into());
    let (before, todo) = core.poll_cfg(&r);
    assert_eq!(todo, vec![]);
    assert_eq!(core.settle_cfg(before, START + 1),
        vec![Action::SpawnHelper { theme: "pill.slint".into(), x: -1, y: -1 }]);
    assert_eq!((core.restarts, core.gave_up, core.next_retry), (0, false, START + 1));
    // nothing new
    let (before, todo) = core.poll_cfg(&r);
    assert_eq!(todo, vec![]);
    assert_eq!(core.settle_cfg(before, START), vec![]);
}

#[test]
fn frames_and_status() {
    let mut core = Core::new(START);
    core.helper = Some(START);
    core.monitoring = true;
    core.handle_event(
        &HostEvent::DeviceConnected { mode: "wifi".into(), label: "Pho\"ne".into() },
        START - 62 * SECOND - 1,
    );
    let todo = core.push_state(audio(true, true), &rounded(), START);
    assert!(core.muted);
    let frame = StatePayload {
        level: number(0.5),
        processed: number(0.25),
        muted: true,
        streaming: true,
        monitoring: true,
        sample_rate: 48000,
        channels: 1,
        queued_ms: number(12.5),
        session_seconds: 62,
        session_text: "01:02".into(),
        device_label: "Pho\"ne".into(),
        device_mode: "wifi".into(),
    };
    let json = "{\"channels\":1,\"deviceLabel\":\"Pho\\\"ne\",\"level\":0.5,\"monitoring\":true,\
        \"muted\":true,\"queuedMs\":12.5,\"sampleRate\":48000,\"sessionSeconds\":62,\
        \"sessionText\":\"01:02\",\"streaming\":true}";
    assert_eq!(todo, vec![
        Action::Send(Cmd::State(frame)),
        config("status", json),
        config("helperState", "\"idle\""),
    ]);
    // within a second nothing is written, after it what is new
    assert_eq!(core.push_state(audio(true, false), &rounded(), START + SECOND - 2).len(), 1);
    assert_eq!(core.push_state(audio(true, false), &rounded(), START + SECOND).len(), 2);
    // without a window only the status is written
    core.helper = None;
    let todo = core.push_state(audio(false, false), &rounded(), START + 2 * SECOND);
    assert_eq!(todo.len(), 1);
    assert!(matches!(&todo[0], Action::SetConfig { key, .. } if key == "status"));
}

#[test]
fn an_unchanged_status_is_not_written_again() {
    let mut core = Core::new(START);
    let todo = core.push_state(audio(false, false), &rounded(), START);
    assert_eq!(todo.len(), 2);
    for seconds in [1, 4, 5, 600] {
        assert_eq!(core.push_state(audio(false, false), &rounded(), START + seconds * SECOND), vec![]);
    }
    // the window's state is written on its own, when it has changed
    core.helper_state = HelperState::Crashed;
    let state = vec![config("helperState", "\"crashed\"")];
    assert_eq!(core.push_state(audio(false, false), &rounded(), START + 601 * SECOND), state);
    assert_eq!(core.push_state(audio(false, false), &rounded(), START + 602 * SECOND), vec![]);
    core.helper_state = HelperState::Starting;
    core.push_state(audio(false, false), &rounded(), START + 603 * SECOND);
    core.helper_state = HelperState::Running;
    assert_eq!(core.push_state(audio(false, false), &rounded(), START + 604 * SECOND - 1), vec![]);
    assert_eq!(core.push_state(audio(false, false), &rounded(), START + 604 * SECOND),
        vec![config("helperState", "\"running\"")]);
    // the status may be written at once, as it is long ago that it was
    assert_eq!(core.push_state(audio(false, true), &rounded(), START + 604 * SECOND).len(), 1);
}

#[test]
fn the_clock_of_a_connection() {
    let mut core = Core::new(START);
    core.helper = Some(START);
    let seconds = |core: &mut Core, now: u64| {
        match &core.push_state(audio(true, false), &rounded(), now)[0] {
            Action::Send(Cmd::State(p)) => (p.session_seconds, p.session_text.clone()),
            _ => panic!("frame expected"),
        }
    };
    // inferred, then taken over by a device
    assert_eq!(seconds(&mut core, START), (0, "00:00".to_string()));
    assert_eq!(seconds(&mut core, START + 3 * SECOND - 1), (2, "00:02".to_string()));
    core.handle_event(
        &HostEvent::DeviceConnected { mode: "usb".into(), label: "Pixel".into() },
        START + 10 * SECOND,
    );
    assert_eq!(seconds(&mut core, START + 10 * SECOND), (0, "00:00".to_string()));
    assert_eq!(seconds(&mut core, START + 3610 * SECOND), (3600, "1:00:00".to_string()));
    // a device that left stays away, although the audio streams on
    core.handle_event(&HostEvent::DeviceDisconnected, START + 3611 * SECOND);
    assert_eq!(seconds(&mut core, START + 3612 * SECOND), (0, "00:00".to_string()));
    assert!(!core.session.snapshot_at(START + 3613 * SECOND).connected);
}

#[test]
fn status_is_what_serde_json_writes() {
    let p = StatePayload {
        level: number(0.62),
        processed: number(0.5),
        muted: false,
        streaming: true,
        monitoring: false,
        sample_rate: 44100,
        channels: 2,
        queued_ms: number(3.0),
        session_seconds: 3661,
        session_text: "1:01:01".to_string(),
        device_label: "a\\b\u{1f}é".to_string(),
        device_mode: "usb".to_string(),
    };
    let r = Rounded {
        level: serde_json::to_string(&0.62f64).unwrap(),
        queued_ms: serde_json::to_string(&3.0f64).unwrap(),
    };
    let mut map = serde_json::Map::new();
    map.insert("streaming".into(), p.streaming.into());
    map.insert("muted".into(), p.muted.into());
    map.insert("monitoring".into(), p.monitoring.into());
    map.insert("level".into(), 0.62f64.into());
    map.insert("sessionSeconds".into(), p.session_seconds.into());
    map.insert("sessionText".into(), p.session_text.clone().into());
    map.insert("deviceLabel".into(), p.device_label.clone().into());
    map.insert("sampleRate".into(), p.sample_rate.into());
    map.insert("channels".into(), p.channels.into());
    map.insert("queuedMs".into(), 3.0f64.into());
    assert_eq!(status_text(&p, &r), serde_json::Value::Object(map).to_string());
}

#[test]
fn host_events() {
    assert_eq!(event_kind("device_connected"), EventKind::DeviceConnected);
    assert_eq!(event_kind("device_disconnected"), EventKind::DeviceDisconnected);
    assert_eq!(event_kind("mute_changed"), EventKind::MuteChanged);
    assert_eq!(event_kind("monitoring_changed"), EventKind::MonitoringChanged);
    assert_eq!(event_kind("hotkey"), EventKind::Other);
    let mut core = Core::new(START);
    let todo = core
        .handle_event(&HostEvent::DeviceConnected { mode: "usb".into(), label: "Pixel".into() }, START);
    assert_eq!(todo, vec![log(LOG_INFO, "device connected: Pixel (usb)")]);
    assert_eq!(core.session.snapshot_at(START).label, "Pixel");
    assert_eq!(core.handle_event(&HostEvent::DeviceDisconnected, START),
        vec![log(LOG_INFO, "device disconnected")]);
    assert!(!core.session.snapshot_at(START).connected);
    assert_eq!(core.handle_event(&HostEvent::MuteChanged { muted: true }, START), vec![]);
    assert!(core.muted);
    assert_eq!(core.handle_event(&HostEvent::MonitoringChanged { enabled: true }, START), vec![]);
    assert!(core.monitoring);
}
