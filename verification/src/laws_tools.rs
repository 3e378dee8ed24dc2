//! What holds of the process around the window, of the host's side and of the system.

use vstd::prelude::*;

use crate::abi::{after_first, after_last, config_first, config_last, mpl_result_t, switch_of};
use crate::abi::{CONFIG_BUFFER, CONFIG_CAP, READ_BUFFER, READ_CAP};
use crate::abi::{timer_of, written, Host, HostCall, HostSlots, ReadStep, WriteStep};
use crate::action::Action;
use crate::cycle::{homeless_act, usable_dir};
use crate::events::{monitoring_reply_acts, mute_reply_acts};
use crate::helper::{after_quit, exe_choice, exe_name, missing_text, recent};
use crate::helper::{spawn_args, Arch, ExeChoice, HelperView, Look, Os, QuitStep};
use crate::json::{json_list, json_quote, json_u64};
use crate::mock_host::{due_at, level_label, mock_args_of, schedule, tick_time, without};
use crate::mock_host::{Entry, Incident};
use crate::panel::{refused_act, saved_acts, staged_act};
use crate::platform::{atoms_of, bare_style, can_place, overlay_style, size_of_screen};
use crate::platform::{taskbar_report, tool_style, wayland_session, x11_obstacle};
use crate::platform::{HandleKind, X11Probe};
use crate::plugin::{spawned_acts, CoreView};
use crate::protocol::{Cmd, Ev, StatePayload};
use crate::startup::{mode_of, script, value_of, SelftestLevels};
use crate::store::{compact_json, default_settings, object_entries, read_of, settings_in};
use crate::store::{update_in, with_theme, write_code};
use crate::text::{decimal, join_text, signed_decimal, spelled_i32, spelled_u64, texts};
use crate::theme::{error_texts, judged, reported, CheckReport, Compiled, CompileError};
use crate::theme::{callback_names_of, components_of, is_pick, property_names_of};
use crate::theme::{remarks_of, source_name_of, warning_texts, Severity};
use crate::themes::{bundled_acts, no_dir_act, no_restore_act, theme_list};
use crate::ui::{all_callbacks, wired, Callback, Ui};

use slint_interpreter::CompilationResult;

verus! {

/// The most recent items are the last ones, in their order, and all of them where there
/// is room.
pub proof fn law_recent_items<T>(items: Seq<T>, cap: nat, i: int)
    ensures
        items.len() <= cap ==> recent(items, cap) == items,
        items.len() > cap ==> recent(items, cap).len() == cap && (0 <= i < cap ==> recent(
            items,
            cap,
        )[i] == items[items.len() - cap + i]),
{
}

/// A process keeps the last sixty-four events and the last twelve lines; taking the
/// events leaves the lines; and a process that is gone stays gone.
pub proof fn law_process_bookkeeping(
    h: HelperView,
    ev: Ev<Seq<char>>,
    line: Seq<char>,
    exited: bool,
)
    requires
        h.events.len() <= 64,
        h.stderr_tail.len() <= 12,
    ensures
        ({
            let more = h.with_event(ev);
            &&& more.events.last() == ev && more.stderr_tail == h.stderr_tail && more.dead
                == h.dead
            &&& h.events.len() < 64 ==> more.events.drop_last() == h.events
            &&& h.events.len() == 64 ==> more.events.drop_last() == h.events.skip(1)
            &&& more.events.len() <= 64
        }),
        ({
            let more = h.with_line(line);
            &&& more.stderr_tail.last() == line && more.events == h.events && more.dead == h.dead
            &&& h.stderr_tail.len() < 12 ==> more.stderr_tail.drop_last() == h.stderr_tail
            &&& h.stderr_tail.len() == 12 ==> more.stderr_tail.drop_last() == h.stderr_tail.skip(1)
            &&& more.stderr_tail.len() <= 12
        }),
        h.drained().events.len() == 0 && h.drained().stderr_tail == h.stderr_tail
            && h.drained().dead == h.dead,
        h.found_dead(exited).dead <==> h.dead || exited,
        h.found_dead(exited).events == h.events && h.found_dead(exited).stderr_tail
            == h.stderr_tail,
        h.valid(),
{
    let more = h.with_event(ev);
    if h.events.len() < 64 {
        assert(more.events.drop_last() =~= h.events);
    } else {
        assert(more.events.drop_last() =~= h.events.skip(1));
    }
    let next = h.with_line(line);
    if h.stderr_tail.len() < 12 {
        assert(next.stderr_tail.drop_last() =~= h.stderr_tail);
    } else {
        assert(next.stderr_tail.drop_last() =~= h.stderr_tail.skip(1));
    }
}

/// The program has one file for each system and machine, and only that of Windows is an
/// `.exe`.
pub proof fn law_program_files(arch: Arch)
    ensures
        Os::Windows.label() == "windows"@ && Os::Linux.label() == "linux"@ && Os::Macos.label()
            == "macos"@,
        Arch::X86_64.label() == "x86_64"@ && Arch::Aarch64.label() == "aarch64"@,
        exe_name(Os::Windows, arch) == "floating-helper-windows-"@ + arch.label() + ".exe"@,
        exe_name(Os::Linux, arch) == "floating-helper-linux-"@ + arch.label(),
        exe_name(Os::Macos, arch) == "floating-helper-macos-"@ + arch.label(),
{
    reveal_strlit("floating-helper-");
    reveal_strlit("windows");
    reveal_strlit("linux");
    reveal_strlit("macos");
    reveal_strlit("-");
    reveal_strlit("");
    reveal_strlit("floating-helper-windows-");
    reveal_strlit("floating-helper-linux-");
    reveal_strlit("floating-helper-macos-");
    assert("floating-helper-windows-"@ =~= "floating-helper-"@ + "windows"@ + "-"@);
    assert("floating-helper-linux-"@ =~= "floating-helper-"@ + "linux"@ + "-"@);
    assert("floating-helper-macos-"@ =~= "floating-helper-"@ + "macos"@ + "-"@);
    assert(exe_name(Os::Windows, arch) =~= "floating-helper-windows-"@ + arch.label() + ".exe"@);
    assert(exe_name(Os::Linux, arch) =~= "floating-helper-linux-"@ + arch.label());
    assert(exe_name(Os::Macos, arch) =~= "floating-helper-macos-"@ + arch.label());
}

/// The program is the named one where that exists, else the one in `bin`, else the one
/// beside the plugin, and missing only where it is in none of these places.
pub proof fn law_program_choice(named: bool, bin: bool, flat: bool, dir: Seq<char>)
    ensures
        exe_choice(true, bin, flat) == ExeChoice::Override,
        exe_choice(false, true, flat) == ExeChoice::Bin,
        exe_choice(false, false, true) == ExeChoice::Flat,
        exe_choice(named, bin, flat) == ExeChoice::Missing <==> !named && !bin && !flat,
        missing_text(dir) == "helper executable not found under "@ + dir
            + " (bin/floating-helper-<os>-<arch>)"@,
{
}

/// A process is started with its theme, and with both coordinates of its position unless
/// both are negative.
pub proof fn law_start_arguments(theme: Seq<char>, x: i32, y: i32)
    ensures
        ({
            let args = spawn_args(theme, x, y);
            &&& args[0] == "--theme"@ && args[1] == theme
            &&& x < 0 && y < 0 ==> args.len() == 2
            &&& x >= 0 || y >= 0 ==> args.len() == 6 && args[2] == "--x"@ && args[3]
                == signed_decimal(x as int) && args[4] == "--y"@ && args[5] == signed_decimal(
                y as int,
            )
        }),
{
}

/// A process that was asked to leave is looked at every fifty milliseconds and ended after
/// one and a half seconds, or at once where nothing can be seen of it.
pub proof fn law_leave_or_be_ended(waited: u64)
    ensures
        after_quit(Look::Exited, waited) == QuitStep::Done,
        waited < 1500 ==> after_quit(Look::Running, waited) == (QuitStep::Wait { ms: 50 }),
        waited >= 1500 ==> after_quit(Look::Running, waited) == QuitStep::Kill,
        after_quit(Look::Unknown, waited) == QuitStep::Kill,
{
}

/// The value of an option stands behind its first occurrence, at `i`; an option that does
/// not occur, or stands last, has none.
pub proof fn law_option_values(args: Seq<Seq<char>>, key: Seq<char>, i: int)
    requires
        0 <= i <= args.len(),
        forall|k: int| 0 <= k < i ==> #[trigger] args[k] != key,
        i < args.len() ==> args[i] == key,
    ensures
        i + 1 < args.len() ==> value_of(args, key) == Some(args[i + 1]),
        i + 1 >= args.len() ==> value_of(args, key) is None,
    decreases args.len(),
{
    if i > 0 {
        let rest = args.skip(1);
        assert forall|k: int| 0 <= k < i - 1 implies #[trigger] rest[k] != key by {
            assert(rest[k] == args[k + 1]);
        }
        if i < args.len() {
            assert(rest[i - 1] == args[i]);
        }
        law_option_values(rest, key, i - 1);
    }
}

/// What the arguments ask for. The version comes before everything, then the check of a
/// theme; else the window is shown, with the named theme or `ring.slint`, at the position
/// when both coordinates are numbers and not both negative. The self-test has a prefix,
/// `cfw` where none is given, and does not end with the input.
pub proof fn law_modes(args: Seq<Seq<char>>)
    ensures
        ({
            let mode = mode_of(args);
            let check = value_of(args, "--compile-check"@);
            let theme = value_of(args, "--theme"@);
            let x = value_of(args, "--x"@);
            let y = value_of(args, "--y"@);
            let prefix = value_of(args, "--selftest"@);
            let tested = args.contains("--selftest"@);
            &&& mode is Version <==> args.contains("--version"@)
            &&& mode is CompileCheck <==> !args.contains("--version"@) && check is Some
            &&& mode is CompileCheck ==> mode->CompileCheck_path == check->Some_0
            &&& mode is Run ==> {
                &&& theme is Some ==> mode->Run_theme == theme->Some_0
                &&& theme is None ==> mode->Run_theme == "ring.slint"@
                &&& mode->Run_pos is Some <==> x is Some && y is Some && spelled_i32(
                    x->Some_0,
                ) is Some && spelled_i32(y->Some_0) is Some && !(spelled_i32(x->Some_0)->Some_0
                    < 0 && spelled_i32(y->Some_0)->Some_0 < 0)
                &&& mode->Run_pos is Some ==> mode->Run_pos->Some_0.0 == spelled_i32(
                    x->Some_0,
                )->Some_0 && mode->Run_pos->Some_0.1 == spelled_i32(y->Some_0)->Some_0
                &&& mode->Run_selftest is Some <==> tested
                &&& tested && prefix is Some ==> mode->Run_selftest == prefix
                &&& tested && prefix is None ==> mode->Run_selftest == Some("cfw"@)
                &&& mode->Run_quit_on_eof <==> !tested
            }
        }),
{
}

/// The self-test shows a stream, then mute, then idleness, and takes a picture of each
/// under its own name; it ends by leaving. A transcript is shown on the first picture
/// where that is asked for.
pub proof fn law_selftest(prefix: Seq<char>, wdis: bool, n: SelftestLevels)
    ensures
        ({
            let list = script(prefix, wdis, n);
            let k: int = if wdis {
                1
            } else {
                0
            };
            &&& list.len() == 7 + k
            &&& list[0].wait_ms == 0 && list[0].cmd is State && ({
                let p = list[0].cmd->State_0;
                &&& p.streaming && !p.muted && !p.monitoring
                &&& p.level == n.level && p.processed == n.processed && p.queued_ms == n.queued_ms
                &&& p.sample_rate == 48000 && p.channels == 1 && p.session_seconds == 754
                &&& p.session_text == "12:34"@ && p.device_label == "MicYou Mobile"@
                &&& p.device_mode == "wifi"@
            })
            &&& wdis ==> list[1].wait_ms == 300 && list[1].cmd == (Cmd::Wdis {
                text: "Hello everyone, let's start the meeting."@,
                hold_ms: 5000,
            })
            &&& list[1 + k].wait_ms == 600 && list[1 + k].cmd == (Cmd::Snapshot {
                path: prefix + "-stream.png"@,
            })
            &&& list[2 + k].wait_ms == 600 && list[2 + k].cmd == Cmd::State(
                StatePayload { muted: true, level: n.quiet, ..list[0].cmd->State_0 },
            )
            &&& list[3 + k].wait_ms == 400 && list[3 + k].cmd == (Cmd::Snapshot {
                path: prefix + "-muted.png"@,
            })
            &&& list[4 + k].wait_ms == 600 && list[4 + k].cmd is State && ({
                let p = list[4 + k].cmd->State_0;
                &&& !p.streaming && !p.muted && p.level == n.zero && p.processed == n.zero
                &&& !p.monitoring && p.sample_rate == 48000 && p.channels == 1
                &&& p.queued_ms == n.queued_ms
                &&& p.session_seconds == 0 && p.session_text == "00:00"@
                &&& p.device_label.len() == 0 && p.device_mode.len() == 0
            })
            &&& list[5 + k].wait_ms == 400 && list[5 + k].cmd == (Cmd::Snapshot {
                path: prefix + "-idle.png"@,
            })
            &&& list[6 + k].wait_ms == 300 && list[6 + k].cmd == Cmd::<Seq<char>>::Quit
        }),
{
}

/// The host's command line needs the plugin and its directory; it runs for twenty seconds
/// where no other number is given.
pub proof fn law_host_arguments(args: Seq<Seq<char>>)
    ensures
        ({
            let a = mock_args_of(args);
            let secs = value_of(args, "--seconds"@);
            &&& a is Some <==> value_of(args, "--plugin"@) is Some && value_of(
                args,
                "--dir"@,
            ) is Some
            &&& a is Some ==> {
                &&& a->Some_0.plugin == value_of(args, "--plugin"@)->Some_0
                &&& a->Some_0.dir == value_of(args, "--dir"@)->Some_0
                &&& a->Some_0.state == value_of(args, "--state"@)
                &&& secs is Some && spelled_u64(secs->Some_0) is Some ==> a->Some_0.seconds
                    == spelled_u64(secs->Some_0)->Some_0
                &&& secs is None || spelled_u64(secs->Some_0) is None ==> a->Some_0.seconds == 20
            }
        }),
{
}

/// The words of the host's log, by level.
pub proof fn law_level_words(level: i32)
    ensures
        level_label(0) == "ERROR"@,
        level_label(1) == "WARN"@,
        level_label(2) == "INFO"@,
        level_label(3) == "DEBUG"@,
        level < 0 || level > 3 ==> level_label(level) == "TRACE"@,
{
}

/// The host's timer ticks every hundred milliseconds where the settings name no time, and
/// never faster than every twenty; a tick is due once its time has passed since the last.
pub proof fn law_host_ticks(update_ms: u64, now: u64, last: u64, ms: u64)
    ensures
        tick_time(None) == 100,
        update_ms <= 20 ==> tick_time(Some(update_ms)) == 20,
        update_ms >= 20 ==> tick_time(Some(update_ms)) == update_ms,
        now >= last ==> (due_at(now, Some(last), ms) <==> now - last >= ms),
        now < last ==> (due_at(now, Some(last), ms) <==> ms == 0),
        ms > 0 ==> !due_at(now, None, ms),
        due_at(now, None, 0),
{
}

/// Stopping a timer keeps the others in their order.
pub proof fn law_other_timers_keep_their_order(before: Seq<u64>, id: u64, after: Seq<u64>)
    requires
        !before.contains(id),
        !after.contains(id),
    ensures
        without(before + seq![id] + after, id) == before + after,
        without(before + after, id) == before + after,
{
    lemma_without_stranger(before, id);
    lemma_without_stranger(after, id);
    let keep = crate::mock_host::other_than(id);
    broadcast use vstd::seq_lib::group_filter_ensures;

    Seq::filter_distributes_over_add(before, seq![id], keep);
    Seq::filter_distributes_over_add(before + seq![id], after, keep);
    Seq::filter_distributes_over_add(before, after, keep);
    reveal_with_fuel(Seq::filter, 2);
    assert(seq![id].filter(keep) =~= seq![]) by {
        assert(seq![id].drop_last() =~= Seq::<u64>::empty());
    }
    assert(before + seq![] =~= before);
}

proof fn lemma_without_stranger(ids: Seq<u64>, id: u64)
    requires
        !ids.contains(id),
    ensures
        without(ids, id) == ids,
    decreases ids.len(),
{
    reveal(Seq::filter);
    if ids.len() > 0 {
        let front = ids.drop_last();
        assert(ids.contains(ids.last()));
        assert(!front.contains(id)) by {
            if front.contains(id) {
                let i = choose|i: int| 0 <= i < front.len() && front[i] == id;
                assert(ids[i] == id);
            }
        }
        lemma_without_stranger(front, id);
        assert(front.push(ids.last()) =~= ids);
    }
}

/// What the host does on its own: a device connects after one and a half seconds, another
/// theme is chosen after four and mute is switched after six; a transcript comes after
/// five and a picture is taken after seven where they are asked for. Nothing else happens.
pub proof fn law_host_schedule(wdis: bool, snapshot: bool)
    ensures
        ({
            let list = schedule(wdis, snapshot);
            let t: int = if wdis {
                1
            } else {
                0
            };
            &&& list[0] == (Entry { at_ms: 1500, what: Incident::DeviceConnected })
            &&& list[1] == (Entry { at_ms: 4000, what: Incident::ApplyTheme })
            &&& wdis ==> list[2] == (Entry { at_ms: 5000, what: Incident::Transcript })
            &&& list[2 + t] == (Entry { at_ms: 6000, what: Incident::MuteChanged })
            &&& snapshot ==> list[3 + t] == (Entry { at_ms: 7000, what: Incident::Snapshot })
            &&& list.len() == 3 + t + if snapshot {
                1int
            } else {
                0
            }
        }),
{
}

/// A session is a Wayland one where it says so, or has a Wayland display and no other;
/// windows can be placed everywhere but there; and a screen has a size where both sides
/// are positive.
pub proof fn law_screens(w: bool, x: bool, kind: Option<Seq<char>>, width: i32, height: i32)
    ensures
        kind == Some("wayland"@) ==> wayland_session(w, x, kind),
        kind != Some("wayland"@) ==> (wayland_session(w, x, kind) <==> w && !x),
        can_place(Os::Windows, w) && can_place(Os::Macos, w),
        can_place(Os::Linux, w) <==> !w,
        width > 0 && height > 0 ==> size_of_screen(width, height) == Some((width, height)),
        width <= 0 || height <= 0 ==> size_of_screen(width, height) is None,
{
}

/// The style bits that a window loses and gains, as numbers: caption, menu, frame and
/// boxes go; it becomes a tool window on top and leaves the taskbar.
pub proof fn law_style_bits(style: u64)
    ensures
        bare_style(style) == style & !0x00CF_0000u64,
        overlay_style(style) == (style | 0x88u64) & !0x0004_0000u64,
        tool_style(style) == (style | 0x80u64) & !0x0004_0000u64,
{
    assert(style & !0x00C0_0000u64 & !0x0008_0000u64 & !0x0002_0000u64 & !0x0001_0000u64
        & !0x0004_0000u64 == style & !0x00CF_0000u64) by (bit_vector);
    assert((style | 0x80u64 | 0x08u64) & !0x0004_0000u64 == (style | 0x88u64) & !0x0004_0000u64)
        by (bit_vector);
}

/// The way to the X11 window ends at the first obstacle, and each has its word.
pub proof fn law_x11_obstacles(p: X11Probe)
    ensures
        p.wayland ==> x11_obstacle(p) == Some("wayland-noop"@),
        !p.wayland && p.handle == HandleKind::Missing ==> x11_obstacle(p) == Some("no-handle"@),
        !p.wayland && p.handle == HandleKind::Foreign ==> x11_obstacle(p) == Some("not-x11"@),
        !p.wayland && p.handle == HandleKind::Xlib && !p.xlib ==> x11_obstacle(p) == Some(
            "no-xlib"@,
        ),
        !p.wayland && p.handle == HandleKind::Xlib && p.xlib && !p.display ==> x11_obstacle(p)
            == Some("no-display"@),
        !p.wayland && p.handle == HandleKind::Xlib && p.xlib && p.display && (p.state == 0
            || p.skip_taskbar == 0 || p.skip_pager == 0) ==> x11_obstacle(p) == Some(
            "atom-error"@,
        ),
        x11_obstacle(p) is None <==> !p.wayland && p.handle == HandleKind::Xlib && p.xlib
            && p.display && p.state != 0 && p.skip_taskbar != 0 && p.skip_pager != 0,
        taskbar_report(false, true) == "no-handle"@ && taskbar_report(false, false)
            == "no-handle"@,
        taskbar_report(true, true) == "taskbar: ITaskbarList::DeleteTab + WS_EX_TOOLWINDOW"@,
        taskbar_report(true, false)
            == "taskbar: DeleteTab unavailable (CoCreateInstance failed); exstyle only"@,
{
}

/// A window state is read where it is a list of atoms of thirty-two bits, and is empty
/// else.
pub proof fn law_state_atoms(kind: u64, format: i32, items: Seq<u64>)
    ensures
        kind == 4 && format == 32 ==> atoms_of(kind, format, items) == items,
        kind != 4 || format != 32 ==> atoms_of(kind, format, items).len() == 0,
{
}

/// The host can be called where it is there: always for log, settings and audio, and for
/// the rest where it has the very callback.
pub proof fn law_host_calls(s: HostSlots)
    ensures
        ({
            let host = Host { slots: Some(s) };
            &&& host.answers(HostCall::Log) && host.answers(HostCall::GetConfig) && host.answers(
                HostCall::SetConfig,
            ) && host.answers(HostCall::AudioState)
            &&& host.answers(HostCall::PluginDir) <==> s.plugin_dir
            &&& host.answers(HostCall::HostInfo) <==> s.host_info
            &&& host.answers(HostCall::SetInterval) <==> s.set_interval
            &&& host.answers(HostCall::ClearInterval) <==> s.clear_interval
            &&& host.answers(HostCall::Notify) <==> s.notify
            &&& host.answers(HostCall::SetPanelIcon) <==> s.set_panel_icon
            &&& host.answers(HostCall::SetMuted) <==> s.set_muted
            &&& host.answers(HostCall::GetMuted) <==> s.get_muted
            &&& host.answers(HostCall::SetMonitoring) <==> s.set_monitoring
            &&& host.answers(HostCall::GetMonitoring) <==> s.get_monitoring
        }),
        forall|call: HostCall| !#[trigger] (Host { slots: None }).answers(call),
{
}

/// The host's answers are taken where they are good ones: a timer has its id, and a switch
/// is on where its value is not zero.
pub proof fn law_host_answers(code: mpl_result_t, id: u64, out: u32)
    ensures
        timer_of(mpl_result_t::MPL_OK, id) == id,
        code != mpl_result_t::MPL_OK ==> timer_of(code, id) == 0,
        out != 0 ==> switch_of(mpl_result_t::MPL_OK, out) == Some(true),
        switch_of(mpl_result_t::MPL_OK, 0) == Some(false),
        code != mpl_result_t::MPL_OK ==> switch_of(code, out) is None,
{
}

/// Reading a text of the host: a buffer that was too small is followed by one with room
/// for the text and a zero, up to the bound; a good answer gives its text, as far as the
/// buffer holds it with the zero; everything else gives none.
pub proof fn law_host_texts(code: mpl_result_t, size: u32, buffer: usize, cap: usize)
    requires
        cap < usize::MAX,
    ensures
        size < cap ==> after_first(mpl_result_t::MPL_ERR_BUFFER_TOO_SMALL, size, buffer, cap) == (
        ReadStep::Retry { len: (size + 1) as usize }),
        size >= cap ==> after_first(mpl_result_t::MPL_ERR_BUFFER_TOO_SMALL, size, buffer, cap) == (
        ReadStep::Retry { len: (cap + 1) as usize }),
        after_last(mpl_result_t::MPL_ERR_BUFFER_TOO_SMALL, size, buffer) == ReadStep::Fail,
        size < buffer ==> after_last(mpl_result_t::MPL_OK, size, buffer) == (ReadStep::Take {
            len: size as usize,
        }),
        size >= buffer > 0 ==> after_last(mpl_result_t::MPL_OK, size, buffer) == (ReadStep::Take {
            len: (buffer - 1) as usize,
        }),
        after_last(mpl_result_t::MPL_OK, size, 0) == (ReadStep::Take { len: 0 }),
        after_first(mpl_result_t::MPL_OK, size, buffer, cap) == after_last(
            mpl_result_t::MPL_OK,
            size,
            buffer,
        ),
        code != mpl_result_t::MPL_OK && code != mpl_result_t::MPL_ERR_BUFFER_TOO_SMALL
            ==> after_first(code, size, buffer, cap) == ReadStep::Fail && after_last(
            code,
            size,
            buffer,
        ) == ReadStep::Fail && config_first(code, size, buffer, cap) == ReadStep::Fail
            && config_last(code, size, buffer) == ReadStep::Fail,
{
}

/// Texts of up to four mebibytes, and settings of up to one, are read whole from the
/// buffers that are used for them, and longer ones not at all.
pub proof fn law_long_texts_are_read(len: usize)
    requires
        len < u32::MAX,
    ensures
        ({
            let first = written(Some(READ_BUFFER as u32), len);
            let step = after_first(first.result(), first.size(), READ_BUFFER, READ_CAP);
            &&& len < 4096 ==> step == (ReadStep::Take { len })
            &&& 4096 <= len < 4194304 ==> step == (ReadStep::Retry { len: (len + 1) as usize })
            &&& len >= 4194304 ==> step == (ReadStep::Retry { len: 4194305 })
            &&& step is Retry ==> {
                let again = written(Some(step->Retry_len as u32), len);
                let end = after_last(again.result(), again.size(), step->Retry_len);
                &&& len <= 4194304 ==> end == (ReadStep::Take { len })
                &&& len > 4194304 ==> end == ReadStep::Fail
            }
        }),
        len > 0 ==> {
            let first = written(Some(CONFIG_BUFFER as u32), len);
            let step = config_first(first.result(), first.size(), CONFIG_BUFFER, CONFIG_CAP);
            &&& len < 16384 ==> step == (ReadStep::Take { len })
            &&& 16384 <= len < 1048576 ==> step == (ReadStep::Retry { len: (len + 1) as usize })
            &&& len >= 1048576 ==> step == (ReadStep::Retry { len: 1048577 })
            &&& step is Retry ==> {
                let again = written(Some(step->Retry_len as u32), len);
                let end = config_last(again.result(), again.size(), step->Retry_len);
                &&& len <= 1048576 ==> end == (ReadStep::Take { len })
                &&& len > 1048576 ==> end == ReadStep::Fail
            }
        },
{
}

/// A host writes a text where it fits with its zero, and says how long the text is either
/// way; it refuses without a buffer.
pub proof fn law_host_writes(room: u32, len: usize)
    requires
        len < u32::MAX,
    ensures
        written(None, len) == WriteStep::Refuse,
        room > len ==> written(Some(room), len) == (WriteStep::Copy { len: len as u32 }),
        room <= len ==> written(Some(room), len) == (WriteStep::TooSmall { need: len as u32 }),
        written(None, len).result() == mpl_result_t::MPL_ERR_INVALID_ARG,
        room > len ==> written(Some(room), len).result() == mpl_result_t::MPL_OK,
        room <= len ==> written(Some(room), len).result()
            == mpl_result_t::MPL_ERR_BUFFER_TOO_SMALL,
        written(Some(room), len).size() == len,
{
}

/// A host without stored settings starts with the default theme, a visible window and a
/// tick of a hundred milliseconds, and no other setting. Stored settings that can be read
/// are taken as they are. Choosing a theme changes that setting alone.
pub proof fn law_stored_settings(
    stored: Seq<char>,
    settings: Map<Seq<char>, Seq<char>>,
    name: Seq<char>,
    other: Seq<char>,
)
    ensures
        settings_in(None) == default_settings(),
        object_entries(stored) is Some ==> settings_in(Some(stored)) == object_entries(
            stored,
        )->Some_0,
        object_entries(stored) is None ==> settings_in(Some(stored)) == default_settings(),
        read_of(default_settings(), "theme"@) == Some(json_quote("ring.slint"@)),
        read_of(default_settings(), "visible"@) == Some("true"@),
        read_of(default_settings(), "updateMs"@) == Some(decimal(100)),
        other != "theme"@ && other != "visible"@ && other != "updateMs"@ ==> read_of(
            default_settings(),
            other,
        ) is None,
        read_of(with_theme(settings, name), "theme"@) == Some(json_quote(name)),
        other != "theme"@ ==> read_of(with_theme(settings, name), other) == read_of(
            settings,
            other,
        ),
        write_code(stored) == mpl_result_t::MPL_OK <==> compact_json(stored) is Some,
        write_code(stored) == mpl_result_t::MPL_ERR_INVALID_ARG <==> compact_json(stored) is None,
        update_in(default_settings()) == Some(100u64),
        read_of(settings, "updateMs"@) is Some ==> update_in(settings) == json_u64(
            read_of(settings, "updateMs"@)->Some_0,
        ),
        read_of(settings, "updateMs"@) is None ==> update_in(settings) is None,
{
    reveal_strlit("theme");
    reveal_strlit("visible");
    reveal_strlit("updateMs");
    assert("theme"@.len() == 5 && "visible"@.len() == 7 && "updateMs"@.len() == 8);
    crate::json::lemma_json_round_trip(0, 100);
}

/// The end of a start: with a timer the plugin is ready and says with which settings;
/// without one it logs an error, stops what runs and reports failure.
pub proof fn law_end_of_a_start(c: CoreView, now: u64, dir: Option<Seq<char>>)
    ensures
        c.interval_id != 0 ==> c.finished(now) == c && c.finish_code() == mpl_result_t::MPL_OK
            && c.finish_acts(now).len() == 1 && c.finish_acts(now)[0] == (Action::<Seq<char>>::Log {
            level: 2,
            text: "ready (theme "@ + c.cfg.theme + ", tick "@ + decimal(c.cfg.update_ms as nat)
                + "ms, visible "@ + (if c.cfg.visible {
                "true"@
            } else {
                "false"@
            }) + ")"@,
        }),
        c.interval_id == 0 ==> c.finished(now) == c.shut(now) && c.finish_code()
            == mpl_result_t::MPL_ERR_RUNTIME && c.finish_acts(now)[0] == (Action::<
            Seq<char>,
        >::Log { level: 0, text: "set_interval unavailable — plugin cannot run"@ })
            && c.finish_acts(now).skip(1) == c.shut_acts(now),
        usable_dir(dir) <==> dir is Some && dir->Some_0.len() > 0,
        homeless_act() == (Action::<Seq<char>>::Log {
            level: 0,
            text: "plugin_dir unavailable — cannot locate themes"@,
        }),
{
    if c.interval_id == 0 {
        assert(c.finish_acts(now).skip(1) =~= c.shut_acts(now));
    }
}

/// Small steps of the plugin change one thing each: a tick is counted, a timer is known, a
/// window is let go, the window's state is noted; and before settings are read it is noted
/// whether the window was to be seen and had a position.
pub proof fn law_small_steps(c: CoreView, id: u64)
    ensures
        c.tick < u64::MAX ==> c.ticked() == (CoreView { tick: (c.tick + 1) as u64, ..c }),
        c.with_interval(id) == (CoreView { interval_id: id, ..c }),
        c.without_helper() == (CoreView { helper: None, ..c }),
        c.state_noted() == (CoreView {
            last_helper_state_written: Some(c.helper_state),
            ..c
        }),
        c.noted_before().visible == c.cfg.visible,
        c.noted_before().had_pos <==> c.win_pos is Some,
        c.helper is Some ==> c.stop_acts() == seq![Action::<Seq<char>>::StopHelper],
        c.helper is None ==> c.stop_acts().len() == 0,
        c.interval_id != 0 ==> c.clear_acts() == seq![
            Action::<Seq<char>>::ClearInterval { id: c.interval_id },
        ],
        c.interval_id == 0 ==> c.clear_acts().len() == 0,
{
}

/// The host's answer to a switch: where it agrees the switch is as asked, and nothing is
/// said; where it refuses nothing changes, and that is a warning.
pub proof fn law_switch_answers(c: CoreView, on: bool)
    ensures
        c.mute_answered(on, true) == (CoreView { muted: on, ..c }),
        c.mute_answered(on, false) == c,
        c.monitoring_answered(on, true) == (CoreView { monitoring: on, ..c }),
        c.monitoring_answered(on, false) == c,
        mute_reply_acts(true).len() == 0 && monitoring_reply_acts(true).len() == 0,
        mute_reply_acts(false) == seq![
            Action::<Seq<char>>::Log { level: 1, text: "set_muted rejected by host"@ },
        ],
        monitoring_reply_acts(false) == seq![
            Action::<Seq<char>>::Log { level: 1, text: "set_monitoring rejected by host"@ },
        ],
{
}

/// A start that worked is told with the theme's path, one that failed with the error, and
/// then as any failure is.
pub proof fn law_starts_are_told(c: CoreView, path: Seq<char>, error: Seq<char>)
    ensures
        spawned_acts(path) == seq![
            Action::<Seq<char>>::Log { level: 2, text: "helper spawned (theme "@ + path + ")"@ },
        ],
        c.spawn_failure_acts(error)[0] == (Action::<Seq<char>>::Log {
            level: 0,
            text: "helper spawn failed: "@ + error,
        }),
        c.spawn_failure_acts(error).skip(1) == c.failure_acts(),
{
    assert(c.spawn_failure_acts(error).skip(1) =~= c.failure_acts());
}

/// The list of themes is written when it is another one or must be, and is then the one
/// last written; else nothing happens.
pub proof fn law_theme_lists_are_told(c: CoreView, names: Seq<Seq<char>>, force: bool)
    ensures
        force || theme_list(names) != c.last_theme_list ==> c.published(names, force) == (
        CoreView { last_theme_list: theme_list(names), ..c }) && c.publish_acts(names, force)
            == seq![
            Action::<Seq<char>>::SetConfig {
                key: "themeList"@,
                json: json_list(theme_list(names)),
            },
        ],
        !force && theme_list(names) == c.last_theme_list ==> c.published(names, force) == c
            && c.publish_acts(names, force).len() == 0,
        c.published(names, false) == c.published(names, true),
        c.published(names, force).publish_acts(names, false).len() == 0,
{
}

/// What is told of theme files: a saved theme clears the error and is listed, a failure is
/// shown to the panel; a theme for the editor goes to it; and what could not be read,
/// written or restored is a warning that names the file.
pub proof fn law_theme_files_are_told(
    name: Seq<char>,
    path: Seq<char>,
    source: Seq<char>,
    why: Seq<char>,
    had: bool,
)
    ensures
        saved_acts(path, None) == seq![
            Action::<Seq<char>>::Log { level: 2, text: "theme saved: "@ + path },
            Action::SetConfig { key: "themeError"@, json: "\"\""@ },
            Action::ListThemes { force: true },
        ],
        saved_acts(path, Some(why)) == seq![
            Action::<Seq<char>>::SetConfig {
                key: "themeError"@,
                json: json_quote("写入失败: "@ + why),
            },
        ],
        staged_act(name, Ok(source)) == (Action::<Seq<char>>::SetConfig {
            key: "themeDraft"@,
            json: json_quote(source),
        }),
        staged_act(name, Err(why)) == (Action::<Seq<char>>::Log {
            level: 1,
            text: "stage-theme: cannot read "@ + name + (": "@ + why),
        }),
        bundled_acts(name, had, Some(why)) == seq![
            Action::<Seq<char>>::Log {
                level: 1,
                text: "cannot write bundled theme "@ + name + (": "@ + why),
            },
        ],
        bundled_acts(name, true, None) == seq![
            Action::<Seq<char>>::Log { level: 2, text: "bundled theme upgraded: "@ + name },
        ],
        bundled_acts(name, false, None).len() == 0,
        no_dir_act(why) == (Action::<Seq<char>>::Log {
            level: 0,
            text: "cannot create themes dir: "@ + why,
        }),
        no_restore_act(name, why) == (Action::<Seq<char>>::Log {
            level: 1,
            text: "restore "@ + name + (" failed: "@ + why),
        }),
        refused_act(name) == (Action::<Seq<char>>::Log {
            level: 1,
            text: "set_config("@ + name + ") failed"@,
        }),
{
}

/// The parts of a theme that are attached are those whose names it declares.
pub proof fn law_declared_parts_are_attached(declared: Seq<Seq<char>>, c: Callback)
    ensures
        wired(declared).contains(c) <==> declared.contains(c.label()),
{
    crate::laws_window::law_callbacks_have_names(c);
    let keep = |x: Callback| declared.contains(x.label());
    broadcast use vstd::seq_lib::group_filter_ensures;

    if wired(declared).contains(c) {
        let i = choose|i: int| 0 <= i < wired(declared).len() && wired(declared)[i] == c;
        assert(keep(wired(declared)[i]));
    }
    if declared.contains(c.label()) {
        let i = choose|i: int| 0 <= i < all_callbacks().len() && all_callbacks()[i] == c;
        assert(keep(all_callbacks()[i]));
    }
}

/// A theme is compiled exactly when no remark is an error and a component was chosen: it
/// is then that component with its properties, callbacks and the warnings. The check of
/// it succeeds exactly then, and prints the errors, one to a line, else.
pub proof fn law_checks(
    result: CompilationResult,
    path: Seq<char>,
    out: Result<Compiled, CompileError>,
    r: CheckReport,
    i: int,
)
    requires
        judged(result, path, out),
        reported(path, out, r),
    ensures
        0 <= i < remarks_of(result).len() && remarks_of(result)[i].severity == Severity::Error
            ==> out is Err && r.code == 1,
        out is Err && error_texts(remarks_of(result)).len() == 0 ==> out->Err_0.message@ == path
            + ": no exported component found"@ && components_of(result).dom() == Set::<
            Seq<char>,
        >::empty() && texts(out->Err_0.warnings@) == warning_texts(remarks_of(result)),
        out is Err && error_texts(remarks_of(result)).len() > 0 ==> out->Err_0.message@
            == join_text(error_texts(remarks_of(result)), "\n"@) && out->Err_0.warnings@.len()
            == 0,
        out is Ok ==> error_texts(remarks_of(result)).len() == 0 && is_pick(
            components_of(result).dom(),
            out->Ok_0.name@,
        ) && out->Ok_0.def == components_of(result)[out->Ok_0.name@] && texts(out->Ok_0.props@)
            == property_names_of(out->Ok_0.def) && texts(out->Ok_0.callbacks@)
            == callback_names_of(out->Ok_0.def) && texts(out->Ok_0.warnings@) == warning_texts(
            remarks_of(result),
        ),
        out is Ok <==> r.code == 0,
        out is Err <==> r.code == 1,
        out is Err ==> r.out@.len() == 0 && r.err@.len() == out->Err_0.warnings@.len() + 1
            && r.err@.last()@ == "COMPILE ERRORS:\n"@ + out->Err_0.message@,
        out is Ok ==> r.out@.len() == 4 && r.err@.len() == out->Ok_0.warnings@.len()
            && r.out@[0]@ == "OK "@ + path && r.out@[1]@ == "  component : "@ + source_name_of(
            out->Ok_0.def,
        ) && r.out@[2]@ == "  properties: "@ + join_text(texts(out->Ok_0.props@), ", "@)
            && r.out@[3]@ == "  callbacks : "@ + join_text(texts(out->Ok_0.callbacks@), ", "@)
            && texts(r.err@) == texts(out->Ok_0.warnings@),
{
    if 0 <= i < remarks_of(result).len() {
        crate::laws_window::law_remarks_are_sorted(remarks_of(result), i);
    }
    if out is Err {
        let e = out->Err_0;
        assert(texts(r.out@).len() == r.out@.len());
        assert(texts(r.err@).len() == r.err@.len());
        assert(texts(r.err@).last() == r.err@.last()@);
        assert(texts(e.warnings@).len() == e.warnings@.len());
    } else {
        let t = out->Ok_0;
        assert(texts(r.out@).len() == r.out@.len());
        assert(texts(r.out@)[0] == r.out@[0]@ && texts(r.out@)[1] == r.out@[1]@ && texts(
            r.out@,
        )[2] == r.out@[2]@ && texts(r.out@)[3] == r.out@[3]@);
        assert(texts(r.err@).len() == r.err@.len());
        assert(texts(t.warnings@).len() == t.warnings@.len());
    }
}

/// A window that was put somewhere is known to be there.
pub proof fn law_placed_windows(ui: Ui, target: crate::platform::Point)
    ensures
        ui.put_at(target).last_pos == Some(target),
        ui.put_at(target) == (Ui { last_pos: ui.put_at(target).last_pos, ..ui }),
{
}

} // verus!
