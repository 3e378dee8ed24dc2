use customizable_floating_window::helper::{
    helper_args, helper_exe_name, helper_exe_path, missing_exe_text, quit_step, Arch, ExeChoice,
    HelperProc, Look, Os, QuitStep, EVENT_CAP, STDERR_TAIL,
};
use customizable_floating_window::platform::{
    clsid_taskbar_list, iid_taskbar_list, is_wayland, linux_skip_taskbar, merge_state, motif_hints,
    overlay, position_api_usable, screen_size, state_atoms, strip_style, tool_window,
    windows_harden, windows_skip_taskbar, HandleKind, HardenStep, Point, WinHardening, X11Probe,
};
use customizable_floating_window::protocol::{Cmd, Ev, Real};
use customizable_floating_window::startup::{parse_args, selftest_feeder, Mode, SelftestLevels};
use customizable_floating_window::ui::{
    activation, attach_callbacks, callback_event, carried_position, move_fits, place_window,
    take_snapshot, Callback, HardenTask, SnapshotOutcome, Task, Ui,
};

fn at(x: i32, y: i32) -> Point {
    Point { x, y }
}

fn strings(list: &[&str]) -> Vec<String> {
    list.iter().map(|s| s.to_string()).collect()
}

#[test]
fn dragging_keeps_to_the_cursor() {
    let mut ui = Ui::new();
    ui.drag_start(Some(at(500, 400)), None);
    let mut pos = at(100, 200);
    for c in [at(501, 400), at(501, 400), at(640, 333), at(-20, 1000)] {
        if let Some(p) = ui.drag_move(true, Some(c), None, Some(pos)) {
            pos = p;
        }
        assert_eq!(pos, at(100 + c.x - 500, 200 + c.y - 400));
    }
    assert_eq!(ui.drag_end(true, Some(pos)), Some(Ev::Moved { x: -420, y: 800 }));
    assert_eq!(ui.last_pos, Some(pos));
    assert!(!ui.dragging);
    // a motion without a button does nothing
    assert_eq!(ui.drag_move(true, Some(at(0, 0)), None, Some(pos)), None);
    assert!(move_fits(at(0, 0), at(1, 1), at(9, 9)));
    assert!(!move_fits(at(i32::MAX, 0), at(0, 0), at(1, 0)));
}

#[test]
fn a_click_is_no_drag() {
    let mut ui = Ui::new();
    ui.drag_start(Some(at(5, 5)), None);
    assert_eq!(ui.drag_move(true, Some(at(300, 5)), None, Some(at(10, 10))), Some(at(305, 10)));
    assert_eq!(ui.drag_end(true, Some(at(305, 10))), None);
    // two motions make a drag, even where the cursor is unknown
    ui.drag_start(None, None);
    ui.drag_move(true, None, None, Some(at(10, 10)));
    ui.drag_move(true, None, None, Some(at(10, 10)));
    assert_eq!(ui.drag_end(true, Some(at(10, 10))), Some(Ev::Moved { x: 10, y: 10 }));
    // no position on platforms without one, nor at the dummy place
    ui.drag_start(Some(at(1, 1)), None);
    assert_eq!(ui.drag_move(false, Some(at(2, 2)), None, Some(at(10, 10))), None);
    assert_eq!(ui.drag_move(false, Some(at(3, 3)), None, Some(at(10, 10))), None);
    assert_eq!(ui.drag_end(false, Some(at(10, 10))), None);
    ui.drag_start(Some(at(1, 1)), None);
    ui.drag_move(true, Some(at(2, 2)), None, None);
    ui.drag_move(true, Some(at(3, 3)), None, None);
    assert_eq!(ui.drag_end(true, Some(at(0, 0))), None);
}

#[test]
fn the_held_place_stays_under_the_pointer() {
    let mut ui = Ui::new();
    for usable in [true, false] {
        ui.drag_start(None, Some(at(10, 12)));
        assert_eq!(ui.drag_move(usable, None, Some(at(15, 9)), Some(at(100, 200))), Some(at(105, 197)));
        assert_eq!(ui.drag_move(usable, None, Some(at(10, 12)), Some(at(105, 197))), None);
        assert_eq!(ui.drag_move(usable, None, Some(at(0, 0)), Some(at(105, 197))), Some(at(95, 185)));
    }
    // a theme that does not say where it was taken: the first motion tells
    ui.drag_start(None, None);
    assert_eq!(ui.drag_move(true, None, Some(at(4, 4)), Some(at(50, 50))), None);
    assert_eq!(ui.drag_move(true, None, Some(at(5, 6)), Some(at(50, 50))), Some(at(51, 52)));
    assert_eq!(ui.drag_end(true, Some(at(51, 52))), Some(Ev::Moved { x: 51, y: 52 }));
    assert_eq!(ui.grip, None);
    // the cursor comes first where it is known
    ui.drag_start(Some(at(0, 0)), Some(at(1, 1)));
    assert_eq!(ui.drag_move(true, Some(at(2, 3)), Some(at(9, 9)), Some(at(50, 50))), Some(at(52, 53)));
    assert!(!ui.drag_in_range(true, Some(at(9, 3)), None, Some(at(i32::MAX, 0))));
    assert!(ui.drag_in_range(false, Some(at(9, 3)), None, Some(at(i32::MAX, 0))));
    assert!(!ui.drag_in_range(false, None, Some(at(2, 2)), Some(at(0, i32::MAX))));
    ui.drag_end(true, None);
    assert!(ui.drag_in_range(true, Some(at(9, 3)), None, Some(at(i32::MAX, 0))));
}

#[test]
fn moves_by_the_system_are_found() {
    let mut ui = Ui::new();
    assert_eq!(ui.poll_position(true, Some(at(0, 0))), None);
    assert_eq!(ui.poll_position(true, Some(at(40, 50))), Some(Ev::Moved { x: 40, y: 50 }));
    assert_eq!(ui.poll_position(true, Some(at(42, 48))), None);
    assert_eq!(ui.last_pos, Some(at(42, 48)));
    assert_eq!(ui.poll_position(true, Some(at(45, 48))), Some(Ev::Moved { x: 45, y: 48 }));
    assert_eq!(ui.poll_position(true, Some(at(45, 45))), Some(Ev::Moved { x: 45, y: 45 }));
    assert_eq!(ui.poll_position(false, Some(at(90, 90))), None);
    ui.drag_start(None, None);
    assert_eq!(ui.poll_position(true, Some(at(90, 90))), None);
    ui.activate_theme();
    assert_eq!((ui.dragging, ui.last_pos), (false, None));
    // a position that was set is no move
    assert_eq!(ui.handle_cmd(Cmd::Pos { x: 7, y: 8 }), Task::MoveTo(at(7, 8)));
    assert_eq!(ui.poll_position(true, Some(at(8, 8))), None);
    ui.placed(at(100, 100));
    assert_eq!(ui.poll_position(true, Some(at(100, 102))), None);
}

#[test]
fn places() {
    assert_eq!(place_window(Some(at(3, 4)), Some((1920, 1080)), 84, 24), Some(at(3, 4)));
    assert_eq!(place_window(None, Some((1920, 1080)), 84, 24), Some(at(1812, 24)));
    assert_eq!(place_window(None, Some((80, 60)), 84, 24), Some(at(0, 24)));
    assert_eq!(place_window(None, Some((0, 60)), 84, 24), None);
    assert_eq!(place_window(None, None, 84, 24), None);
    assert_eq!(carried_position(Some(at(1, 2)), Some((3, 4))), Some(at(1, 2)));
    assert_eq!(carried_position(None, Some((3, 4))), Some(at(3, 4)));
    assert_eq!(carried_position(None, None), None);
}

#[test]
fn callbacks_of_a_theme() {
    let declared = strings(&["other", "drag-end", "mute-toggle", "menu-action"]);
    assert_eq!(attach_callbacks(&declared),
        vec![Callback::MuteToggle, Callback::MenuAction, Callback::DragEnd]);
    assert_eq!(attach_callbacks(&vec![]), vec![]);
    assert_eq!(callback_event(Callback::MuteToggle, None), Some(Ev::Mute));
    assert_eq!(callback_event(Callback::MonitoringToggle, None), Some(Ev::Monitoring));
    assert_eq!(callback_event(Callback::HideWindow, None), Some(Ev::Hide));
    assert_eq!(callback_event(Callback::MenuAction, Some("a".into())),
        Some(Ev::Menu { action: "a".into() }));
    assert_eq!(callback_event(Callback::MenuAction, None), Some(Ev::Menu { action: "".into() }));
    assert_eq!(callback_event(Callback::DragMove, None), None);
    assert_eq!(Callback::DragStart.name(), "drag-start");
}

#[test]
fn commands_and_reports() {
    let mut ui = Ui::new();
    assert_eq!(ui.handle_cmd(Cmd::Quit), Task::Leave);
    assert_eq!(ui.handle_cmd(Cmd::PosDefault), Task::PlaceDefault);
    assert_eq!(ui.handle_cmd(Cmd::Visible { show: false }), Task::SetVisible { show: false });
    assert_eq!(ui.handle_cmd(Cmd::Theme { path: "p".into() }), Task::LoadTheme { path: "p".into() });
    assert_eq!(ui.handle_cmd(Cmd::Wdis { text: "t".into(), hold_ms: 9 }),
        Task::ShowTranscript { text: "t".into(), hold_ms: 9 });
    assert_eq!(ui, Ui::new());
    let say = |o: SnapshotOutcome| take_snapshot(&o);
    let line = |m: &str| Ev::Log { message: m.to_string() };
    assert_eq!(say(SnapshotOutcome::Written { path: "a.png".into(), width: 84, height: 124 }),
        line("snapshot written: a.png (84x124)"));
    assert_eq!(say(SnapshotOutcome::NotEncoded { error: "e".into() }),
        line("snapshot encode failed: e"));
    assert_eq!(say(SnapshotOutcome::NotCreated { error: "e".into() }),
        line("snapshot create failed: e"));
    assert_eq!(say(SnapshotOutcome::Unavailable), line("snapshot unavailable"));
    assert_eq!(activation("r", true, true), Ev::Ready { theme: "r".into(), reloaded: true });
    assert_eq!(activation("r", false, true), Ev::ThemeError { message: "cannot show window".into() });
}

#[test]
fn windows_recipe() {
    let style = 0x16CF_0000u64;
    let bare = strip_style(style);
    assert_eq!(bare, 0x1600_0000);
    assert_eq!(strip_style(bare), bare);
    assert_eq!(overlay(0x0004_0100), 0x0000_0188);
    assert_eq!(tool_window(0x0004_0100), 0x0000_0180);
    let mut st = WinHardening::new();
    assert_eq!(windows_harden(&mut st, None, 30), HardenStep::Nothing);
    assert_eq!(windows_harden(&mut st, Some(77), 31), HardenStep::Apply { hwnd: 77 });
    assert_eq!(windows_harden(&mut st, Some(99), 59), HardenStep::Nothing);
    assert_eq!(windows_harden(&mut st, None, 60), HardenStep::Refresh { hwnd: 77 });
    assert_eq!(windows_skip_taskbar(false, true), "no-handle");
    assert_eq!(windows_skip_taskbar(true, true), "taskbar: ITaskbarList::DeleteTab + WS_EX_TOOLWINDOW");
    assert_eq!(windows_skip_taskbar(true, false),
        "taskbar: DeleteTab unavailable (CoCreateInstance failed); exstyle only");
    let (class, face) = (clsid_taskbar_list(), iid_taskbar_list());
    assert_eq!((class.d1, face.d1), (0x56FD_F344, 0x56FD_F342));
    assert_eq!(class.d4, face.d4);
}

#[test]
fn x11_state() {
    let good = X11Probe {
        wayland: false,
        handle: HandleKind::Xlib,
        xlib: true,
        display: true,
        state: 1,
        skip_taskbar: 2,
        skip_pager: 3,
    };
    assert_eq!(linux_skip_taskbar(good), (true, "skip-taskbar-x11"));
    let say = |p: X11Probe| linux_skip_taskbar(p).1;
    assert_eq!(say(X11Probe { wayland: true, ..good }), "wayland-noop");
    assert_eq!(say(X11Probe { handle: HandleKind::Missing, ..good }), "no-handle");
    assert_eq!(say(X11Probe { handle: HandleKind::Foreign, ..good }), "not-x11");
    assert_eq!(say(X11Probe { xlib: false, ..good }), "no-xlib");
    assert_eq!(say(X11Probe { display: false, ..good }), "no-display");
    assert_eq!(say(X11Probe { skip_pager: 0, ..good }), "atom-error");
    assert_eq!(state_atoms(4, 32, vec![8, 9]), vec![8, 9]);
    assert_eq!(state_atoms(4, 8, vec![8, 9]), Vec::<u64>::new());
    assert_eq!(state_atoms(5, 32, vec![8, 9]), Vec::<u64>::new());
    assert_eq!(merge_state(vec![8, 3], 2, 3), vec![8, 3, 2]);
    assert_eq!(merge_state(vec![], 2, 3), vec![2, 3]);
    assert_eq!(merge_state(vec![2, 3], 2, 3), vec![2, 3]);
    assert_eq!(motif_hints(), vec![2, 0, 0, 0, 0]);
}

#[test]
fn sessions_and_screens() {
    assert!(is_wayland(true, false, &None));
    assert!(!is_wayland(true, true, &Some("x11".into())));
    assert!(is_wayland(false, true, &Some("wayland".into())));
    assert!(!is_wayland(false, false, &None));
    assert!(!position_api_usable(Os::Linux, true));
    assert!(position_api_usable(Os::Linux, false) && position_api_usable(Os::Macos, true));
    assert_eq!(screen_size(1920, 1080), Some((1920, 1080)));
    assert_eq!(screen_size(0, 1080), None);
    assert_eq!(screen_size(5, -1), None);
}

#[test]
fn hardening_by_platform() {
    let mut ui = Ui::new();
    let tasks: Vec<HardenTask> = (0..6).map(|_| ui.harden(Os::Linux, true, None)).collect();
    assert_eq!(tasks[3], HardenTask::SkipTaskbar);
    assert_eq!(tasks.iter().filter(|t| **t != HardenTask::Nothing).count(), 1);
    let mut ui = Ui::new();
    let policies = (0..20).filter(|_| ui.harden(Os::Macos, false, None) == HardenTask::AccessoryPolicy);
    assert_eq!(policies.count(), 10);
    let mut ui = Ui::new();
    assert_eq!(ui.harden(Os::Windows, false, Some(1)), HardenTask::Nothing);
    assert_eq!(ui.harden(Os::Windows, true, Some(1)), HardenTask::Windows(HardenStep::Apply { hwnd: 1 }));
    let refreshes = (3..=60).filter(|_| {
        ui.harden(Os::Windows, true, None) == HardenTask::Windows(HardenStep::Refresh { hwnd: 1 })
    });
    assert_eq!(refreshes.count(), 2);
}

#[test]
fn recent_events_and_lines_are_kept() {
    let mut h = HelperProc::new();
    for i in 0..(EVENT_CAP as i32 + 10) {
        h.queue_event(Ev::Moved { x: i, y: 0 });
    }
    let events = h.drain_events();
    assert_eq!(events.len(), EVENT_CAP);
    assert_eq!(events[0], Ev::Moved { x: 10, y: 0 });
    assert_eq!(events[EVENT_CAP - 1], Ev::Moved { x: EVENT_CAP as i32 + 9, y: 0 });
    assert!(h.drain_events().is_empty());
    for i in 0..STDERR_TAIL + 3 {
        h.note_stderr(format!("line {i}"));
    }
    let lines = h.stderr_snapshot();
    assert_eq!((lines.len(), lines[0].as_str()), (STDERR_TAIL, "line 3"));
    assert!(!h.is_dead(false));
    assert!(h.is_dead(true) && h.is_dead(false));
    let mut h = HelperProc::new();
    h.channel_closed();
    assert!(h.is_dead(false));
}

#[test]
fn leaving_takes_its_time() {
    assert_eq!(quit_step(Look::Exited, 9000), QuitStep::Done);
    assert_eq!(quit_step(Look::Running, 0), QuitStep::Wait { ms: 50 });
    assert_eq!(quit_step(Look::Running, 1499), QuitStep::Wait { ms: 50 });
    assert_eq!(quit_step(Look::Running, 1500), QuitStep::Kill);
    assert_eq!(quit_step(Look::Unknown, 0), QuitStep::Kill);
}

#[test]
fn finding_the_program() {
    assert_eq!(helper_exe_name(Os::Windows, Arch::X86_64), "floating-helper-windows-x86_64.exe");
    assert_eq!(helper_exe_name(Os::Macos, Arch::Aarch64), "floating-helper-macos-aarch64");
    assert_eq!(helper_exe_name(Os::Linux, Arch::X86_64), "floating-helper-linux-x86_64");
    assert_eq!(helper_exe_path(false, false, false), ExeChoice::Missing);
    assert_eq!(helper_exe_path(true, true, true), ExeChoice::Override);
    assert_eq!(helper_exe_path(false, true, true), ExeChoice::Bin);
    assert_eq!(helper_exe_path(false, false, true), ExeChoice::Flat);
    assert_eq!(missing_exe_text("/p"),
        "helper executable not found under /p (bin/floating-helper-<os>-<arch>)");
}

#[test]
fn arguments_are_understood() {
    for (x, y) in [(0, 0), (968, 258), (-5, 3), (3, -5), (i32::MAX, i32::MIN)] {
        let mut args = strings(&["helper"]);
        args.extend(helper_args("/t/pill.slint", x, y));
        assert_eq!(parse_args(&args), Mode::Run {
            theme: "/t/pill.slint".into(),
            pos: Some((x, y)),
            selftest: None,
            quit_on_eof: true,
        });
    }
    assert_eq!(helper_args("t", -1, -1), strings(&["--theme", "t"]));
    assert_eq!(helper_args("t", -1, 7), strings(&["--theme", "t", "--x", "-1", "--y", "7"]));
}

#[test]
fn command_lines() {
    let parse = |list: &[&str]| parse_args(&strings(list));
    assert_eq!(parse(&["h", "--theme", "t", "--version"]), Mode::Version);
    assert_eq!(parse(&["h", "--compile-check", "f"]), Mode::CompileCheck { path: "f".into() });
    let run = |pos, selftest: Option<&str>, quit_on_eof| Mode::Run {
        theme: "ring.slint".into(),
        pos,
        selftest: selftest.map(|s| s.to_string()),
        quit_on_eof,
    };
    assert_eq!(parse(&["h"]), run(None, None, true));
    assert_eq!(parse(&["h", "--compile-check"]), run(None, None, true));
    assert_eq!(parse(&["h", "--selftest"]), run(None, Some("cfw"), false));
    assert_eq!(parse(&["h", "--selftest", "out"]), run(None, Some("out"), false));
    assert_eq!(parse(&["h", "--x", "1"]), run(None, None, true));
    assert_eq!(parse(&["h", "--x", "+1", "--y", "007"]), run(Some((1, 7)), None, true));
    for bad in ["", "-", "1.5", "2147483648", "x", "--1"] {
        assert_eq!(parse(&["h", "--x", bad, "--y", "1"]), run(None, None, true), "{bad}");
    }
    assert_eq!(parse(&["h", "--x", "-1", "--y", "-1"]), run(None, None, true));
}

#[test]
fn selftest() {
    let amount = |v: f64| Real { bits: v.to_bits() };
    let n = SelftestLevels {
        level: amount(0.62),
        processed: amount(0.55),
        quiet: amount(0.3),
        zero: amount(0.0),
        queued_ms: amount(12.5),
    };
    let steps = selftest_feeder("out", false, n);
    assert_eq!(steps.iter().map(|s| s.wait_ms).collect::<Vec<_>>(),
        vec![0, 600, 600, 400, 600, 400, 300]);
    assert_eq!(steps[1].cmd, Cmd::Snapshot { path: "out-stream.png".into() });
    assert_eq!(steps[3].cmd, Cmd::Snapshot { path: "out-muted.png".into() });
    assert_eq!(steps[5].cmd, Cmd::Snapshot { path: "out-idle.png".into() });
    assert_eq!(steps[6].cmd, Cmd::Quit);
    match (&steps[0].cmd, &steps[2].cmd, &steps[4].cmd) {
        (Cmd::State(a), Cmd::State(b), Cmd::State(c)) => {
            assert_eq!((a.level, a.muted, a.session_seconds), (amount(0.62), false, 754));
            assert_eq!((b.level, b.muted, b.device_label.as_str()), (amount(0.3), true, "MicYou Mobile"));
            assert_eq!((c.level, c.streaming, c.session_text.as_str()), (amount(0.0), false, "00:00"));
            assert_eq!((c.sample_rate, c.device_mode.as_str()), (48000, ""));
        }
        _ => panic!("states expected"),
    }
    let steps = selftest_feeder("out", true, n);
    assert_eq!(steps.len(), 8);
    assert_eq!(steps[1].cmd, Cmd::Wdis {
        text: "Hello everyone, let's start the meeting.".into(),
        hold_ms: 5000,
    });
}
