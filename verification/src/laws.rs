//! What holds of the plugin as a whole.

use vstd::prelude::*;

use crate::action::{config, Action};
use crate::config::{law_position_is_read_back, ParsedCfg, RawCfg, HOLD_MS_MAX, HOLD_MS_MIN};
use crate::cycle::Before;
use crate::events::HostEvent;
use crate::helper::spawn_args;
use crate::panel::{request_named, Input, Request};
use crate::plugin::{backoff, since, tick_payload, usable};
use crate::plugin::{Acts, CoreView, HelperState, HEALTHY_RESET, MAX_RESTARTS, POS_WRITE};
use crate::plugin::{RESTART_CAP, STATUS_WRITE};
use crate::protocol::{Cmd, Ev};
use crate::session::SECOND;
use crate::startup::{law_spawn_arguments_are_understood, mode_of, plain, Mode};
use crate::status::{AudioState, Rounded};
use crate::text::signed_decimal;
use crate::themes::{theme_list, valid_name};

verus! {

/// Whether any of the actions starts a window.
pub open spec fn starts_window(todo: Acts) -> bool {
    exists|i: int| 0 <= i < todo.len() && #[trigger] todo[i] is SpawnHelper
}

/// Whether any of the actions shows a notification.
pub open spec fn notifies(todo: Acts) -> bool {
    exists|i: int| 0 <= i < todo.len() && #[trigger] todo[i] is Notify
}

/// The state after failures in a row, at the given times.
pub open spec fn failing(c: CoreView, times: Seq<u64>) -> CoreView
    decreases times.len(),
{
    if times.len() == 0 {
        c
    } else {
        failing(c, times.drop_last()).after_failure(times.last())
    }
}

/// A window that fails again and again is started anew after growing waits, and no
/// longer after the sixth failure in a row.
pub proof fn law_restarts_back_off_and_end(c: CoreView, times: Seq<u64>)
    requires
        c.restarts == 0,
        !c.gave_up,
        times.len() > 0,
        times.len() <= u32::MAX,
        forall|i: int| 0 <= i < times.len() ==> usable(#[trigger] times[i]),
    ensures
        ({
            let after = failing(c, times);
            &&& after.restarts == times.len()
            &&& after.helper_state == HelperState::Crashed
            &&& times.len() < MAX_RESTARTS ==> !after.gave_up && after.next_retry == times.last()
                + backoff((times.len() - 1) as u32)
            &&& times.len() >= MAX_RESTARTS ==> after.gave_up && forall|now: u64|
                !#[trigger] after.wants_spawn(now)
        }),
    decreases times.len(),
{
    vstd::arithmetic::power2::lemma2_to64();
    if times.len() > 1 {
        law_restarts_back_off_and_end(c, times.drop_last());
    } else {
        assert(times.drop_last() =~= seq![]);
        assert(failing(c, seq![]) == c);
    }
    assert(usable(times.last()));
}

/// The waits grow from failure to failure, from half a second to at most fifteen.
pub proof fn law_waits_grow(n: u32, m: u32)
    requires
        n <= m,
    ensures
        500_000_000 == backoff(0) <= backoff(n) <= backoff(m) <= RESTART_CAP,
{
    vstd::arithmetic::power2::lemma2_to64();
}

/// The user is told of repeated crashes once: with the failure that is the last
/// try, and with no other until the window has run or was restarted.
pub proof fn law_crashes_are_told_once(c: CoreView, now: u64)
    ensures
        notifies(c.failure_acts()) ==> c.after_failure(now).gave_up && !c.crash_notified,
        !c.crash_notified && c.after_failure(now).restarts >= MAX_RESTARTS ==> notifies(
            c.failure_acts(),
        ),
        c.after_failure(now).restarts >= MAX_RESTARTS ==> !notifies(
            c.after_failure(now).failure_acts(),
        ),
{
    let todo = c.failure_acts();
    if !c.crash_notified && c.after_failure(now).restarts >= MAX_RESTARTS {
        assert(todo[1] is Notify);
    }
}

/// While the window is to be hidden, its process is not started by the watch over
/// it, and its end is no failure.
pub proof fn law_hidden_window_stays_away(
    c: CoreView,
    dead: bool,
    ran: Seq<char>,
    tail: Seq<Seq<char>>,
    now: u64,
)
    requires
        !c.cfg.visible,
    ensures
        !starts_window(c.check_acts(dead, ran, tail, now)),
        !starts_window(c.checked(dead, now).respawn_acts(now)),
        c.checked(dead, now).restarts <= c.restarts,
        c.gave_up || !c.checked(dead, now).gave_up,
{
}

/// Both ways to hide the window, from itself and from the panel, store that it is
/// hidden; showing it from the panel stores that, and undoes a giving up.
pub proof fn law_visibility_is_stored(c: CoreView, input: Input<Seq<char>>, now: u64)
    ensures
        !c.after_event(Ev::Hide, now).cfg.visible,
        c.event_acts(Ev::Hide, now).contains(config("visible"@, "false"@)),
        !c.after_request(Request::Hide, input, now).cfg.visible,
        c.request_acts("hide"@, input, now).contains(config("visible"@, "false"@)),
        c.after_request(Request::Show, input, now).cfg.visible,
        !c.after_request(Request::Show, input, now).gave_up,
        c.request_acts("show"@, input, now).contains(config("visible"@, "true"@)),
        c.helper is None ==> starts_window(c.request_acts("show"@, input, now)),
{
    let show = config("visible"@, "true"@);
    let hide = config("visible"@, "false"@);
    assert(c.event_acts(Ev::Hide, now)[0] == hide);
    lemma_request_names();
    assert(c.request_acts("hide"@, input, now)[0] == hide);
    assert(c.request_acts("show"@, input, now)[0] == show);
    if c.helper is None {
        assert(c.request_acts("show"@, input, now)[1] is SpawnHelper);
    }
}

proof fn lemma_request_names()
    ensures
        request_named("show"@) == Request::Show,
        request_named("hide"@) == Request::Hide,
        request_named("reset-pos"@) == Request::ResetPos,
        request_named("restart-helper"@) == Request::RestartHelper,
{
    reveal_strlit("show");
    reveal_strlit("hide");
    reveal_strlit("reset-pos");
    reveal_strlit("restart-helper");
    reveal_strlit("apply-theme");
    reveal_strlit("reload");
    assert("show"@.len() == 4 && "hide"@.len() == 4);
    assert("show"@[0] == 's' && "hide"@[0] == 'h');
    assert("reset-pos"@.len() == 9 && "restart-helper"@.len() == 14);
    assert("apply-theme"@.len() == 11 && "reload"@.len() == 6);
}

/// There is one window at most: while one runs, nothing but a restart asks for
/// another, and a restart stops the running one first.
pub proof fn law_one_window_at_a_time(
    c: CoreView,
    ev: Ev<Seq<char>>,
    name: Seq<char>,
    input: Input<Seq<char>>,
    p: ParsedCfg<Seq<char>>,
    before: Before,
    now: u64,
)
    requires
        c.helper is Some,
    ensures
        !starts_window(c.event_acts(ev, now)),
        !starts_window(c.respawn_acts(now)),
        !starts_window(c.poll_acts(p)),
        !starts_window(c.settle_acts(before)),
        request_named(name) != Request::RestartHelper ==> !starts_window(
            c.request_acts(name, input, now),
        ),
        c.restart_acts(p, now)[0] == (Action::<Seq<char>>::StopHelper),
{
    assert(c.loaded(p).helper is Some);
    assert(c.loaded(input.cfg.parsed()).helper is Some);
}

/// A position that is written can be read back: the two texts are the position
/// that the state now holds.
pub proof fn law_written_position_is_read_back(
    c: CoreView,
    raw: RawCfg<Seq<char>>,
    force: bool,
    now: u64,
)
    requires
        c.flushes(force, now),
        raw.window_x is Some,
        raw.window_y is Some,
        c.flush_acts(force, now) == seq![
            config("windowX"@, raw.window_x->Some_0),
            config("windowY"@, raw.window_y->Some_0),
        ],
    ensures
        raw.parsed().position() == c.pending_pos,
        c.flushed(force, now).win_pos == c.pending_pos,
        c.flushed(force, now).pending_pos is None,
{
    let (x, y) = c.pending_pos->Some_0;
    let todo = c.flush_acts(force, now);
    assert(todo[0] == config("windowX"@, signed_decimal(x as int)));
    assert(todo[1] == config("windowY"@, signed_decimal(y as int)));
    assert(todo[0] == config("windowX"@, raw.window_x->Some_0));
    assert(todo[1] == config("windowY"@, raw.window_y->Some_0));
    law_position_is_read_back(raw, x, y);
    assert(raw =~= RawCfg {
        window_x: Some(signed_decimal(x as int)),
        window_y: Some(signed_decimal(y as int)),
        ..raw
    });
}

/// While nothing forces them, two writes of the position are at least a second
/// apart, however often the window moves in between.
pub proof fn law_position_writes_are_rare(c: CoreView, first: u64, x: i32, y: i32, second: u64)
    requires
        c.flushes(false, first),
    ensures
        (CoreView { pending_pos: Some((x, y)), ..c.flushed(false, first) }).flushes(false, second)
            ==> since(second, first) >= POS_WRITE,
{
}

/// Two writes of the status are at least a second apart, and an unchanged status is
/// not written again. The same holds of the window's state.
pub proof fn law_status_writes_are_rare(
    c: CoreView,
    one: Seq<char>,
    first: u64,
    other: Seq<char>,
    state: HelperState,
    second: u64,
)
    ensures
        ({
            let later = CoreView { helper_state: state, ..c.mirrored(one, first) };
            &&& c.mirrors(one, first) && later.mirrors(other, second) ==> since(second, first)
                >= STATUS_WRITE && one != other
            &&& c.mirrors_state(first) && later.mirrors_state(second) ==> since(second, first)
                >= STATUS_WRITE && c.helper_state != state
        }),
{
}

/// The user is told of a theme error once: the same message again brings no
/// second notification, another one does.
pub proof fn law_theme_errors_are_told_once(
    c: CoreView,
    message: Seq<char>,
    other: Seq<char>,
    now: u64,
)
    requires
        message.len() > 0,
        other.len() > 0,
    ensures
        ({
            let after = c.after_event(Ev::ThemeError { message }, now);
            notifies(after.event_acts(Ev::ThemeError { message: other }, now)) == (message != other)
        }),
{
    let after = c.after_event(Ev::ThemeError { message }, now);
    let todo = after.event_acts(Ev::ThemeError { message: other }, now);
    if message != other {
        assert(todo[2] is Notify);
    }
}

/// A click asks the host for the other mute state, and a second one for the first
/// state again, as long as the host agrees.
pub proof fn law_mute_toggles(c: CoreView, now: u64)
    ensures
        c.event_acts(Ev::Mute, now) == seq![Action::<Seq<char>>::SetMuted { on: !c.muted }],
        (CoreView { muted: !c.muted, ..c }).event_acts(Ev::Mute, now) == seq![
            Action::<Seq<char>>::SetMuted { on: c.muted },
        ],
        c.event_acts(Ev::Monitoring, now) == seq![
            Action::<Seq<char>>::SetMonitoring { on: !c.monitoring },
        ],
        (CoreView { monitoring: !c.monitoring, ..c }).event_acts(Ev::Monitoring, now) == seq![
            Action::<Seq<char>>::SetMonitoring { on: c.monitoring },
        ],
{
}

/// Ticks of other timers, and of the plugin's own timers that no longer run, do
/// nothing; those of the timer that runs are taken.
pub proof fn law_stale_ticks_are_ignored(c: CoreView, interval: u64, payload: Seq<char>)
    ensures
        payload != tick_payload() || interval != c.interval_id ==> !c.accepts(interval, payload),
        c.accepts(c.interval_id, tick_payload()),
{
}

/// A theme that is shown clears the count of failures, and so does a minute
/// without a crash.
pub proof fn law_health_clears_the_count(c: CoreView, theme: Seq<char>, reloaded: bool, now: u64)
    ensures
        ({
            let ready = c.after_event(Ev::Ready { theme, reloaded }, now);
            ready.restarts == 0 && !ready.gave_up && !ready.crash_notified && ready.helper_state
                == HelperState::Running
        }),
        c.helper is Some && since(now, c.helper->Some_0) >= HEALTHY_RESET ==> c.checked(
            false,
            now,
        ).restarts == 0,
        c.helper is Some && since(now, c.helper->Some_0) >= HEALTHY_RESET && c.cfg.visible
            ==> c.checked(true, now).restarts == 1,
{
}

/// A transcript is shown only where the user wants transcripts and there is a
/// window, and never for less than one or more than thirty seconds.
pub proof fn law_transcripts_stay_in_bounds(c: CoreView, text: Seq<char>)
    requires
        c.valid(),
    ensures
        c.wdis_acts(text).len() == 1 <==> c.cfg.wdis_enabled && c.helper is Some,
        forall|i: int|
            0 <= i < c.wdis_acts(text).len() ==> ((#[trigger] c.wdis_acts(text)[i]) matches Action::Send(
                Cmd::Wdis { text: t, hold_ms },
            ) && t == text && HOLD_MS_MIN <= hold_ms <= HOLD_MS_MAX),
{
}

/// At the end nothing is left: no timer, no window, no position to write.
pub proof fn law_end_leaves_nothing(c: CoreView, now: u64)
    ensures
        ({
            let after = c.shut(now);
            after.helper is None && after.interval_id == 0 && after.pending_pos is None
                && after.helper_state == HelperState::Stopped
        }),
        c.helper is Some ==> c.shut_acts(now).contains(Action::StopHelper),
        c.interval_id != 0 ==> c.shut_acts(now).contains(
            Action::ClearInterval { id: c.interval_id },
        ),
        c.pending_pos matches Some((x, y)) ==> c.shut_acts(now).contains(
            config("windowX"@, signed_decimal(x as int)),
        ) && c.shut_acts(now).contains(config("windowY"@, signed_decimal(y as int))),
{
    let all = c.shut_acts(now);
    let n = c.clear_acts().len() as int;
    let m = n + c.flush_acts(true, now).len();
    if c.helper is Some {
        assert(all[m] == (Action::<Seq<char>>::StopHelper));
    }
    if c.interval_id != 0 {
        assert(all[0] == (Action::<Seq<char>>::ClearInterval { id: c.interval_id }));
    }
    if let Some((x, y)) = c.pending_pos {
        assert(all[n] == config("windowX"@, signed_decimal(x as int)));
        assert(all[n + 1] == config("windowY"@, signed_decimal(y as int)));
    }
}

/// A reset forgets the position, in the state and in the configuration, and moves
/// the window.
pub proof fn law_reset_forgets_the_position(
    c: CoreView,
    input: Input<Seq<char>>,
    raw: RawCfg<Seq<char>>,
    now: u64,
)
    ensures
        ({
            let after = c.after_request(Request::ResetPos, input, now);
            after.win_pos is None && after.pending_pos is None
        }),
        c.request_acts("reset-pos"@, input, now) == seq![
            config("windowX"@, "null"@),
            config("windowY"@, "null"@),
        ] + c.send_acts(Cmd::PosDefault),
        (RawCfg {
            window_x: Some("null"@),
            window_y: Some("null"@),
            ..raw
        }).parsed().position() is None,
{
    lemma_request_names();
    law_position_is_read_back(raw, 0, 0);
    law_position_is_read_back(RawCfg { window_y: Some("null"@), ..raw }, 0, 0);
}

/// What the host reports of mute and monitoring is what the state then holds, and
/// a frame shows the mute state of the audio that it came with.
pub proof fn law_host_state_wins(
    c: CoreView,
    on: bool,
    st: AudioState,
    r: Rounded<Seq<char>>,
    now: u64,
)
    ensures
        c.after_host_event(HostEvent::MuteChanged { muted: on }, now).muted == on,
        c.after_host_event(HostEvent::MonitoringChanged { enabled: on }, now).monitoring == on,
        c.pushed(st, r, now).muted == st.muted,
        c.helper is Some ==> (c.push_acts(st, r, now)[0] matches Action::Send(Cmd::State(p))
            && p.muted == st.muted && p.monitoring == c.monitoring),
{
}

/// A frame that is shown after a device has connected tells its label and mode, and
/// the whole seconds since the connection, whatever the audio does.
pub proof fn law_frames_count_from_the_connection(
    c: CoreView,
    mode: Seq<char>,
    label: Seq<char>,
    first: u64,
    st: AudioState,
    r: Rounded<Seq<char>>,
    second: u64,
)
    requires
        c.helper is Some,
    ensures
        ({
            let connected = c.after_host_event(HostEvent::DeviceConnected { mode, label }, first);
            connected.push_acts(st, r, second)[0] matches Action::Send(Cmd::State(p))
                && p.session_seconds == since(second, first) / SECOND && p.device_label == label
                && p.device_mode == mode
        }),
{
}

/// Whether every theme file that the actions speak of has a valid name.
pub open spec fn stays_in_place(todo: Acts) -> bool {
    forall|i: int|
        0 <= i < todo.len() ==> match #[trigger] todo[i] {
            Action::SpawnHelper { theme, x, y } => valid_name(theme),
            Action::SendTheme { theme } => valid_name(theme),
            Action::WriteTheme { name, source } => valid_name(name),
            Action::ReadTheme { name } => valid_name(name),
            _ => true,
        }
}

/// No theme file outside the theme directory is ever read, written or shown: the
/// names that the plugin acts on are all valid, whatever the window, the panel and
/// the configuration say.
pub proof fn law_theme_files_stay_in_place(
    c: CoreView,
    ev: Ev<Seq<char>>,
    name: Seq<char>,
    input: Input<Seq<char>>,
    p: ParsedCfg<Seq<char>>,
    before: Before,
    host: Option<Seq<char>>,
    dir: Seq<char>,
    now: u64,
)
    requires
        c.valid(),
    ensures
        stays_in_place(c.event_acts(ev, now)),
        stays_in_place(c.request_acts(name, input, now)),
        stays_in_place(c.respawn_acts(now)),
        stays_in_place(c.poll_acts(p)),
        stays_in_place(c.settle_acts(before)),
        stays_in_place(c.start_acts(host, dir)),
{
    assert(valid_name(c.cfg.theme));
    assert(c.loaded(p).cfg.valid());
    assert(c.loaded(input.cfg.parsed()).cfg.valid());
    assert(c.restarted(input.cfg.parsed(), now).cfg.valid());
}

/// A position survives the end of the plugin: once its two texts are stored, the
/// next start asks for a window at that position, and the process that is then
/// started goes there, unless both coordinates are negative.
pub proof fn law_position_survives_a_restart(
    raw: RawCfg<Seq<char>>,
    x: i32,
    y: i32,
    now: u64,
    monitoring: Option<bool>,
    muted: Option<bool>,
    exe: Seq<char>,
    file: Seq<char>,
)
    requires
        raw.window_x == Some(signed_decimal(x as int)),
        raw.window_y == Some(signed_decimal(y as int)),
        plain(exe),
        plain(file),
    ensures
        ({
            let c = CoreView::started(now, raw.parsed(), monitoring, muted);
            &&& c.win_pos == Some((x, y))
            &&& c.spawn_act() == (Action::SpawnHelper { theme: c.cfg.theme, x, y })
            &&& mode_of(seq![exe] + spawn_args(file, x, y)) == (Mode::Run {
                theme: file,
                pos: if x < 0 && y < 0 {
                    None
                } else {
                    Some((x, y))
                },
                selftest: None,
                quit_on_eof: true,
            })
        }),
{
    law_position_is_read_back(raw, x, y);
    assert(raw =~= RawCfg {
        window_x: Some(signed_decimal(x as int)),
        window_y: Some(signed_decimal(y as int)),
        ..raw
    });
    law_spawn_arguments_are_understood(exe, file, x, y);
}

/// Without force the list of themes is written only when it differs from the one
/// written before.
pub proof fn law_theme_list_is_written_on_change(c: CoreView, names: Seq<Seq<char>>, force: bool)
    ensures
        ({
            let after = CoreView { last_theme_list: theme_list(names), ..c };
            !after.publishes(names, false)
        }),
        c.publishes(names, true),
        theme_list(names) != c.last_theme_list ==> c.publishes(names, force),
{
}

} // verus!
