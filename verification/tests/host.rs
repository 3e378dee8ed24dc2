use customizable_floating_window::abi::{
    config_answer, first_answer, first_config_answer, last_answer, mpl_result_t, set_interval, switch_state, taken_text, write_out, Host,
    HostCall, HostSlots, ReadStep, WriteStep, CONFIG_BUFFER, CONFIG_CAP, READ_BUFFER, READ_CAP,
};
use customizable_floating_window::message::{route, route_topic, shown_text, wdis_frame, Route};
use customizable_floating_window::mock_host::{
    is_due, level_name, mock_args, pump_ms, timeline, traces_key, Incident, Timers,
};
use customizable_floating_window::store::Store;

/// Reads `text` the way the plugin does from a host that writes it.
fn read(text: &str, first: usize, cap: usize) -> Option<String> {
    let serve = |buffer: &mut Vec<u8>| {
        let step = write_out(Some(buffer.len() as u32), text.len());
        match step {
            WriteStep::Copy { len } => {
                buffer[..text.len()].copy_from_slice(text.as_bytes());
                buffer[text.len()] = 0;
                (step.code(), len)
            }
            WriteStep::TooSmall { need } => (step.code(), need),
            WriteStep::Refuse => (step.code(), 0),
        }
    };
    let mut buffer = vec![0xffu8; first];
    let (code, size) = serve(&mut buffer);
    let mut step = first_answer(code, size, buffer.len(), cap);
    if let ReadStep::Retry { len } = step {
        buffer.resize(len, 0xff);
        let (code, size) = serve(&mut buffer);
        step = last_answer(code, size, buffer.len());
    }
    match step {
        ReadStep::Take { len } => Some(taken_text(&buffer, len)),
        _ => None,
    }
}

#[test]
fn host_texts_are_read_whole() {
    for n in [0, 1, 4095, 4096, 4097, 5000] {
        let text = "x".repeat(n);
        assert_eq!(read(&text, READ_BUFFER, READ_CAP), Some(text));
    }
    assert_eq!(read("悬浮窗", 4, 64), Some("悬浮窗".to_string()));
    assert_eq!(read("12345", 4, 5), Some("12345".to_string()));
    assert_eq!(read("123456", 4, 5), None);
    let text = "y".repeat(CONFIG_CAP);
    assert_eq!(read(&text, CONFIG_BUFFER, CONFIG_CAP), Some(text));
}

#[test]
fn odd_answers_of_a_host() {
    // a size behind the end of the buffer is cut
    assert_eq!(last_answer(mpl_result_t::MPL_OK, 99, 8), ReadStep::Take { len: 7 });
    assert_eq!(last_answer(mpl_result_t::MPL_OK, 99, 0), ReadStep::Take { len: 0 });
    for code in [
        mpl_result_t::MPL_ERR_NOT_IMPLEMENTED,
        mpl_result_t::MPL_ERR_INVALID_ARG,
        mpl_result_t::MPL_ERR_RUNTIME,
        mpl_result_t::MPL_ERR_PERMISSION,
    ] {
        assert_eq!(first_answer(code, 3, 8, 100), ReadStep::Fail);
    }
    assert_eq!(last_answer(mpl_result_t::MPL_ERR_BUFFER_TOO_SMALL, 3, 8), ReadStep::Fail);
    assert_eq!(write_out(None, 3).code(), mpl_result_t::MPL_ERR_INVALID_ARG);
    assert_eq!(write_out(Some(3), 3), WriteStep::TooSmall { need: 3 });
    assert_eq!(taken_text(&vec![b'a', 0xff, b'b'], 3), "a\u{fffd}b");
    assert_eq!(taken_text(&vec![b'a', 0xff, b'b'], 1), "a");
}

#[test]
fn unset_keys_have_no_text() {
    let ok = mpl_result_t::MPL_OK;
    assert_eq!(first_config_answer(ok, 0, 16384, CONFIG_CAP), ReadStep::Fail);
    assert_eq!(config_answer(ok, 0, 16384), ReadStep::Fail);
    assert_eq!(first_config_answer(ok, 4, 16384, CONFIG_CAP), ReadStep::Take { len: 4 });
    assert_eq!(config_answer(ok, 4, 16384), ReadStep::Take { len: 4 });
    let small = mpl_result_t::MPL_ERR_BUFFER_TOO_SMALL;
    assert_eq!(first_config_answer(small, 20000, 16384, CONFIG_CAP), ReadStep::Retry { len: 20001 });
    assert_eq!(config_answer(small, 20000, 16384), ReadStep::Fail);
    // other texts may be empty
    assert_eq!(last_answer(ok, 0, 16384), ReadStep::Take { len: 0 });
}

#[test]
fn codes_have_their_numbers() {
    assert_eq!(mpl_result_t::MPL_OK as i32, 0);
    assert_eq!(mpl_result_t::MPL_ERR_NOT_IMPLEMENTED as i32, 1);
    assert_eq!(mpl_result_t::MPL_ERR_INVALID_ARG as i32, 2);
    assert_eq!(mpl_result_t::MPL_ERR_RUNTIME as i32, 3);
    assert_eq!(mpl_result_t::MPL_ERR_BUFFER_TOO_SMALL as i32, 4);
    assert_eq!(mpl_result_t::MPL_ERR_PERMISSION as i32, 5);
    assert_eq!(set_interval(mpl_result_t::MPL_OK, 8), 8);
    assert_eq!(set_interval(mpl_result_t::MPL_ERR_PERMISSION, 8), 0);
    assert_eq!(switch_state(mpl_result_t::MPL_OK, 2), Some(true));
    assert_eq!(switch_state(mpl_result_t::MPL_OK, 0), Some(false));
    assert_eq!(switch_state(mpl_result_t::MPL_ERR_RUNTIME, 1), None);
}

#[test]
fn missing_callbacks_are_not_called() {
    let mut host = Host::new();
    assert!(!host.with_host(HostCall::Log));
    let slots = HostSlots {
        plugin_dir: true,
        host_info: false,
        set_interval: true,
        clear_interval: true,
        notify: false,
        set_panel_icon: true,
        set_muted: true,
        get_muted: true,
        set_monitoring: true,
        get_monitoring: true,
    };
    host.store_host(slots);
    assert!(host.with_host(HostCall::Log) && host.plugin_dir());
    assert!(!host.host_info() && !host.with_host(HostCall::Notify));
    host.clear_host();
    assert!(!host.plugin_dir() && !host.with_host(HostCall::SetConfig));
}

#[test]
fn transcripts_are_routed_by_their_bytes() {
    let frame = wdis_frame(1_700_000_000_000, 1_700_000_005_000, "  Hello 世界 \n");
    assert_eq!(&frame[0..4], b"WDIS");
    assert_eq!(frame[4..12], 1_700_000_000_000i64.to_le_bytes());
    assert_eq!(frame[12..20], 1_700_000_005_000i64.to_le_bytes());
    assert_eq!(route("broadcast", &frame), Route::Transcript(Some("Hello 世界".into())));
    assert_eq!(route("ui:show", &frame), Route::Transcript(Some("Hello 世界".into())));
    assert_eq!(route("x", &wdis_frame(0, 0, " \t")), Route::Transcript(None));
    let mut broken = wdis_frame(0, 0, "a");
    broken.push(0xff);
    assert_eq!(route("x", &broken), Route::Transcript(Some("a\u{fffd}".into())));
    assert_eq!(route("interval:tick", &b"WDIS too short".to_vec()), Route::Tick);
    assert_eq!(route("interval:tick", &b"WDIX0123456789012345678".to_vec()), Route::Tick);
}

#[test]
fn topics() {
    assert_eq!(route_topic("interval:tick"), Route::Tick);
    assert_eq!(route_topic("ui:save-theme"), Route::Panel("save-theme".into()));
    assert_eq!(route_topic("ui:"), Route::Panel("".into()));
    assert_eq!(route_topic("hotkey:1"), Route::Ignored);
    assert_eq!(shown_text(" a "), Some("a".into()));
    assert_eq!(shown_text("  "), None);
}

fn args(list: &[&str]) -> Vec<String> {
    list.iter().map(|s| s.to_string()).collect()
}

#[test]
fn mock_command_line() {
    assert!(mock_args(&args(&["m", "--plugin", "p.so"])).is_none());
    assert!(mock_args(&args(&["m", "--dir", "d"])).is_none());
    assert!(mock_args(&args(&["m", "--dir", "d", "--plugin"])).is_none());
    let a = mock_args(&args(&["m", "--plugin", "p.so", "--dir", "d", "--seconds", "+15"])).unwrap();
    assert_eq!((a.plugin.as_str(), a.dir.as_str(), a.seconds, a.state), ("p.so", "d", 15, None));
    for (text, seconds) in [("x", 20), ("-1", 20), ("0", 0), ("18446744073709551616", 20), ("", 20)] {
        let a = mock_args(&args(&[
            "m", "--plugin", "p", "--dir", "d", "--seconds", text, "--state", "s.json",
        ]))
        .unwrap();
        assert_eq!(a.seconds, seconds, "{text}");
        assert_eq!(a.state, Some("s.json".to_string()));
    }
}

#[test]
fn mock_timers() {
    let mut timers = Timers::new();
    assert_eq!((timers.set_interval(), timers.set_interval(), timers.set_interval()), (1, 2, 3));
    timers.clear_interval(2);
    assert_eq!(timers.ids, vec![1, 3]);
    timers.clear_interval(9);
    assert_eq!(timers.ids, vec![1, 3]);
    assert_eq!(timers.set_interval(), 4);
    assert_eq!((pump_ms(None), pump_ms(Some(5)), pump_ms(Some(300))), (100, 20, 300));
    assert!(!is_due(50, None, 20));
    assert!(is_due(50, Some(30), 20));
    assert!(!is_due(49, Some(30), 20));
}

#[test]
fn mock_words_and_schedule() {
    assert_eq!([0, 1, 2, 3, 4, -1].map(level_name),
        ["ERROR", "WARN", "INFO", "DEBUG", "TRACE", "TRACE"]);
    assert!(traces_key("theme") && !traces_key("status"));
    let all = timeline(true, true);
    assert_eq!(all.iter().map(|e| e.at_ms).collect::<Vec<_>>(), vec![1500, 4000, 5000, 6000, 7000]);
    assert_eq!(timeline(false, false).iter().map(|e| e.what).collect::<Vec<_>>(),
        vec![Incident::DeviceConnected, Incident::ApplyTheme, Incident::MuteChanged]);
}

#[test]
fn settings_are_read_back() {
    let mut store = Store::open(None);
    assert_eq!(store.set_config("pos", " { \"b\" : 1, \"a\":[ true , null ] } "), mpl_result_t::MPL_OK);
    assert_eq!(store.get_config("pos").as_deref(), Some("{\"a\":[true,null],\"b\":1}"));
    assert_eq!(store.set_config("pos", "\"h\\u00e9\""), mpl_result_t::MPL_OK);
    assert_eq!(store.get_config("pos").as_deref(), Some("\"hé\""));
    assert_eq!(store.get_config("theme").as_deref(), Some("\"ring.slint\""));
    assert_eq!(store.get_config("other"), None);
}

#[test]
fn refused_settings_change_nothing() {
    let mut store = Store::open(None);
    let before = store.stored_text();
    for text in ["", "{", "ring.slint", "1 2"] {
        assert_eq!(store.set_config("theme", text), mpl_result_t::MPL_ERR_INVALID_ARG);
    }
    assert_eq!(store.stored_text(), before);
    assert_eq!(store.get_config("theme").as_deref(), Some("\"ring.slint\""));
}

#[test]
fn settings_start_from_what_was_stored() {
    let fresh = "{\n  \"theme\": \"ring.slint\",\n  \"updateMs\": 100,\n  \"visible\": true\n}";
    assert_eq!(Store::open(None).stored_text(), fresh);
    assert_eq!(Store::open(Some("[1]")).stored_text(), fresh);
    assert_eq!(Store::open(Some("null")).stored_text(), fresh);
    let stored = Store::open(Some("{\"updateMs\": 250, \"theme\": \"mine.slint\"}"));
    assert_eq!(stored.get_config("theme").as_deref(), Some("\"mine.slint\""));
    assert_eq!(stored.get_config("visible"), None);
    assert_eq!(Store::open(Some(&stored.stored_text())).stored_text(), stored.stored_text());
}

#[test]
fn the_update_time_is_an_integer() {
    let mut store = Store::open(None);
    assert_eq!(store.update_ms(), Some(100));
    for (text, ms) in [
        ("18446744073709551615", Some(u64::MAX)),
        ("18446744073709551616", None),
        ("1e2", None),
        ("100.0", None),
        ("-5", None),
        ("-0", None),
        ("\"100\"", None),
        (" 33 ", Some(33)),
    ] {
        assert_eq!(store.set_config("updateMs", text), mpl_result_t::MPL_OK);
        assert_eq!(store.update_ms(), ms);
    }
    assert_eq!(Store::open(Some("{}")).update_ms(), None);
}

#[test]
fn a_chosen_theme_is_a_json_string() {
    let mut store = Store::open(None);
    store.choose_theme("my \"own\".slint");
    assert_eq!(store.get_config("theme").as_deref(), Some("\"my \\\"own\\\".slint\""));
}
