//! What each operation of the plugin brings about, and what it leaves alone.

use vstd::prelude::*;

use crate::action::{log_line, Action};
use crate::config::{Cfg, ParsedCfg, RawCfg};
use crate::cycle::{next_tick, stages, Before, Stage};
use crate::events::HostEvent;
use crate::json::{json_quote, json_string};
use crate::laws::{failing, notifies, starts_window};
use crate::plugin::{since, usable, CoreView, HelperState};
use crate::protocol::{Cmd, Ev};
use crate::session::SessionView;
use crate::text::{decimal, signed_decimal};
use crate::themes::valid_name;

verus! {

/// Where a window of the plugin is started: at the saved position, or at the one that
/// stands for none.
pub open spec fn start_at(theme: Seq<char>, pos: Option<(i32, i32)>) -> Action<Seq<char>> {
    Action::SpawnHelper {
        theme,
        x: if pos is Some {
            pos->Some_0.0
        } else {
            -1i32
        },
        y: if pos is Some {
            pos->Some_0.1
        } else {
            -1i32
        },
    }
}

/// Failures change the count of them, what follows from it and the window's state, and
/// nothing else: settings, saved position, session and all that waits to be written
/// stay.
pub proof fn law_failures_leave_the_rest(c: CoreView, times: Seq<u64>)
    ensures
        ({
            let after = failing(c, times);
            after == (CoreView {
                restarts: after.restarts,
                next_retry: after.next_retry,
                gave_up: after.gave_up,
                crash_notified: after.crash_notified,
                helper_state: after.helper_state,
                ..c
            })
        }),
    decreases times.len(),
{
    if times.len() > 0 {
        law_failures_leave_the_rest(c, times.drop_last());
    }
}

/// A window that crashes comes back as it was: once the wait is over the watch starts
/// it with the same theme and at the same saved position, and before that not at all.
/// The wait is half a second after a first failure.
pub proof fn law_crashed_window_comes_back_in_place(
    c: CoreView,
    now: u64,
    later: u64,
    ran: Seq<char>,
    tail: Seq<Seq<char>>,
)
    requires
        c.cfg.visible,
        c.helper is Some,
        !c.gave_up,
        usable(now),
    ensures
        ({
            let down = c.checked(true, now);
            let again = down.checked(false, later);
            &&& down.helper is None
            &&& !down.gave_up ==> down.next_retry > now && again == down
            &&& !down.gave_up && later >= down.next_retry ==> again.respawn_acts(later) == seq![
                start_at(c.cfg.theme, c.win_pos),
            ]
            &&& !down.gave_up && later < down.next_retry ==> again.respawn_acts(later).len() == 0
            &&& down.gave_up ==> again.respawn_acts(later).len() == 0
            &&& c.restarts == 0 ==> !down.gave_up && down.next_retry == now + 500_000_000
            &&& !down.gave_up && later >= down.next_retry && c.win_pos is Some
                ==> again.respawn_acts(later) == seq![
                Action::<Seq<char>>::SpawnHelper {
                    theme: c.cfg.theme,
                    x: c.win_pos->Some_0.0,
                    y: c.win_pos->Some_0.1,
                },
            ]
            &&& down.win_pos == c.win_pos
            &&& down.pending_pos == c.pending_pos
            &&& down.cfg == c.cfg
        }),
{
    vstd::arithmetic::power2::lemma2_to64();
}

/// After any number of failures in a row that is short of giving up, the next start is
/// with the theme and at the position from before them.
pub proof fn law_failures_keep_the_place(c: CoreView, times: Seq<u64>, now: u64)
    requires
        c.cfg.visible,
        c.helper is None,
        c.restarts == 0,
        !c.gave_up,
        0 < times.len() < 6,
        forall|i: int| 0 <= i < times.len() ==> usable(#[trigger] times[i]),
    ensures
        ({
            let after = failing(c, times);
            &&& !after.gave_up
            &&& after.restarts == times.len()
            &&& after.wants_spawn(now) <==> now >= after.next_retry
            &&& after.spawn_act() == start_at(c.cfg.theme, c.win_pos)
        }),
{
    law_failures_leave_the_rest(c, times);
    crate::laws::law_restarts_back_off_and_end(c, times);
}

/// The waits after one to five failures in a row are half a second, one, two, four and
/// eight seconds, and the sixth failure is the last.
pub proof fn law_waits_double(c: CoreView, now: u64)
    requires
        usable(now),
    ensures
        c.restarts == 0 ==> c.after_failure(now).next_retry - now == 500_000_000,
        c.restarts == 1 ==> c.after_failure(now).next_retry - now == 1_000_000_000,
        c.restarts == 2 ==> c.after_failure(now).next_retry - now == 2_000_000_000,
        c.restarts == 3 ==> c.after_failure(now).next_retry - now == 4_000_000_000,
        c.restarts == 4 ==> c.after_failure(now).next_retry - now == 8_000_000_000,
        c.restarts < 5 ==> c.after_failure(now).restarts == c.restarts + 1
            && c.after_failure(now).gave_up == c.gave_up && c.after_failure(now).crash_notified
            == c.crash_notified && c.failure_acts().len() == 0,
        c.restarts >= 5 ==> c.after_failure(now).gave_up && c.after_failure(now).crash_notified
            && c.after_failure(now).next_retry == c.next_retry && c.failure_acts().len() == (
        if c.crash_notified {
            0int
        } else {
            2int
        }),
        c.after_failure(now).helper_state == HelperState::Crashed,
{
    vstd::arithmetic::power2::lemma2_to64();
}

/// When the plugin gives up, it logs an error and tells the user in words that name the
/// panel.
pub proof fn law_giving_up_is_told(c: CoreView)
    requires
        c.restarts >= 5,
        !c.crash_notified,
    ensures
        c.failure_acts()[0] == log_line(0, "helper crashed 6× — giving up. stderr tail: "@),
        c.failure_acts()[1] == (Action::Notify {
            title: "悬浮窗 FloatingWindow"@,
            body: "悬浮窗进程反复崩溃，已停止重试。可在插件面板中重启或更换主题。"@,
        }),
{
}

/// What a look at the process finds. A window that lives stays as it is, but a minute
/// of health clears the count; one that was not there stays away; one that has died is
/// gone, and its end counts as a failure where it was to be seen.
pub proof fn law_watch(c: CoreView, dead: bool, now: u64)
    ensures
        c.helper is None ==> c.checked(dead, now) == c,
        c.helper is Some && !dead && since(now, c.helper->Some_0) < 60_000_000_000 ==> c.checked(
            dead,
            now,
        ) == c,
        c.helper is Some && !dead && since(now, c.helper->Some_0) >= 60_000_000_000 ==> c.checked(
            dead,
            now,
        ) == (CoreView {
            restarts: 0,
            gave_up: c.gave_up && c.restarts == 0,
            ..c
        }),
        c.helper is Some && dead && !c.cfg.visible ==> c.checked(dead, now) == (CoreView {
            helper: None,
            helper_state: HelperState::Hidden,
            restarts: c.checked(dead, now).restarts,
            ..c
        }),
        c.helper is Some && dead && c.cfg.visible && since(now, c.helper->Some_0) < 60_000_000_000
            && c.restarts < u32::MAX ==> c.checked(dead, now).restarts == c.restarts + 1,
        c.helper is Some && dead && c.cfg.visible && since(now, c.helper->Some_0) >= 60_000_000_000
            ==> c.checked(dead, now).restarts == 1,
        c.helper is Some && dead && !c.cfg.visible ==> c.checked(dead, now).restarts == (
        if since(now, c.helper->Some_0) >= 60_000_000_000 {
            0
        } else {
            c.restarts
        }),
        c.helper is Some && dead && c.cfg.visible ==> c.checked(dead, now).helper_state
            == HelperState::Crashed && c.checked(dead, now).helper is None,
        c.helper is Some && dead && c.cfg.visible ==> c.checked(dead, now) == (CoreView {
            helper: None,
            restarts: c.checked(dead, now).restarts,
            next_retry: c.checked(dead, now).next_retry,
            gave_up: c.checked(dead, now).gave_up,
            crash_notified: c.checked(dead, now).crash_notified,
            helper_state: HelperState::Crashed,
            ..c
        }),
        c.checked(dead, now).win_pos == c.win_pos,
        c.checked(dead, now).cfg == c.cfg,
        c.checked(dead, now).session == c.session,
        c.checked(dead, now).pending_pos == c.pending_pos,
{
}

/// The end of the process is logged as a warning with its run and its last words, and a
/// living one is not.
pub proof fn law_ends_are_logged(
    c: CoreView,
    dead: bool,
    ran: Seq<char>,
    tail: Seq<Seq<char>>,
    now: u64,
)
    ensures
        ({
            let todo = c.check_acts(dead, ran, tail, now);
            &&& (todo.len() > 0) == (c.helper is Some && dead)
            &&& todo.len() > 0 ==> todo[0] == log_line(
                1,
                "helper exited after "@ + ran + "s; stderr tail: "@ + crate::text::join_text(
                    tail,
                    " | "@,
                ),
            )
            &&& !c.cfg.visible ==> todo.len() <= 1
            &&& c.helper is Some && dead && c.cfg.visible && c.restarts >= 5 && !c.crash_notified
                && since(now, c.helper->Some_0) < 60_000_000_000 ==> todo.len() == 3
                && todo[1] is Log && todo[2] is Notify
            &&& c.helper is Some && dead && since(now, c.helper->Some_0) >= 60_000_000_000
                ==> todo.len() == 1
            &&& c.helper is Some && dead && (c.restarts < 5 || c.crash_notified) ==> todo.len()
                == 1
            &&& notifies(todo) ==> c.restarts >= 5 && !c.crash_notified && c.cfg.visible
        }),
{
}

/// A window is started when it is to be seen and there is none, unless the plugin has
/// given up or still waits; then the one action is its start with the chosen theme at
/// the saved position.
pub proof fn law_when_a_window_is_started(c: CoreView, now: u64)
    ensures
        c.wants_spawn(now) == (c.cfg.visible && c.helper is None && !c.gave_up && c.next_retry
            <= now),
        c.wants_spawn(now) ==> c.respawn_acts(now) == seq![start_at(c.cfg.theme, c.win_pos)],
        !c.wants_spawn(now) ==> c.respawn_acts(now).len() == 0,
        c.win_pos is Some ==> c.spawn_act() == (Action::<Seq<char>>::SpawnHelper {
            theme: c.cfg.theme,
            x: c.win_pos->Some_0.0,
            y: c.win_pos->Some_0.1,
        }),
        c.win_pos is None ==> c.spawn_act() == (Action::<Seq<char>>::SpawnHelper {
            theme: c.cfg.theme,
            x: -1i32,
            y: -1i32,
        }),
        c.after_spawn(now) == (CoreView {
            helper: Some(now),
            helper_state: HelperState::Starting,
            ..c
        }),
{
}

/// A theme is shown in the window that is there, or in a new one where the window is to
/// be seen; a hidden window is not started for it.
pub proof fn law_themes_are_shown(c: CoreView)
    ensures
        c.helper is Some ==> c.reload_acts() == seq![
            Action::<Seq<char>>::SendTheme { theme: c.cfg.theme },
        ],
        c.helper is None && c.cfg.visible ==> c.reload_acts() == seq![
            start_at(c.cfg.theme, c.win_pos),
        ],
        c.helper is None && !c.cfg.visible ==> c.reload_acts().len() == 0,
        c.helper is None ==> starts_window(c.reload_acts()) == c.cfg.visible,
{
    if c.helper is None && c.cfg.visible {
        assert(c.reload_acts()[0] is SpawnHelper);
    }
}

/// The window position is written when it has changed and a second has passed since the
/// last write, or when it must be; both coordinates are written under their keys, and
/// from then on the position is the saved one.
pub proof fn law_positions_are_written(c: CoreView, force: bool, now: u64)
    ensures
        c.flushes(force, now) == (c.pending_pos is Some && (force || now - c.last_pos_write
            >= 1_000_000_000)),
        c.flushes(force, now) ==> c.flush_acts(force, now) == seq![
            Action::<Seq<char>>::SetConfig {
                key: "windowX"@,
                json: signed_decimal(c.pending_pos->Some_0.0 as int),
            },
            Action::<Seq<char>>::SetConfig {
                key: "windowY"@,
                json: signed_decimal(c.pending_pos->Some_0.1 as int),
            },
        ],
        c.flushes(force, now) ==> c.flushed(force, now) == (CoreView {
            win_pos: c.pending_pos,
            pending_pos: None,
            last_pos_write: now,
            ..c
        }),
        !c.flushes(force, now) ==> c.flushed(force, now) == c && c.flush_acts(force, now).len()
            == 0,
{
}

/// The end keeps settings, session and counts, and stops what runs: first the timer,
/// then the position is written, and the window leaves last.
pub proof fn law_end_in_order(c: CoreView, now: u64)
    ensures
        c.shut(now) == (CoreView {
            interval_id: 0,
            helper: None,
            helper_state: HelperState::Stopped,
            win_pos: if c.pending_pos is Some {
                c.pending_pos
            } else {
                c.win_pos
            },
            pending_pos: None,
            last_pos_write: if c.pending_pos is Some {
                now
            } else {
                c.last_pos_write
            },
            ..c
        }),
        c.shut_acts(now).len() == (if c.interval_id != 0 {
            1int
        } else {
            0
        }) + (if c.pending_pos is Some {
            2int
        } else {
            0
        }) + (if c.helper is Some {
            1int
        } else {
            0
        }),
        c.helper is Some ==> c.shut_acts(now).last() == Action::<Seq<char>>::StopHelper,
        c.interval_id != 0 ==> c.shut_acts(now)[0] == (Action::<Seq<char>>::ClearInterval {
            id: c.interval_id,
        }),
        c.pending_pos is Some ==> {
            let k: int = if c.interval_id != 0 {
                1
            } else {
                0
            };
            &&& c.shut_acts(now)[k] == (Action::<Seq<char>>::SetConfig {
                key: "windowX"@,
                json: signed_decimal(c.pending_pos->Some_0.0 as int),
            })
            &&& c.shut_acts(now)[k + 1] == (Action::<Seq<char>>::SetConfig {
                key: "windowY"@,
                json: signed_decimal(c.pending_pos->Some_0.1 as int),
            })
        },
{
}

/// A plugin that was just made shows the default theme at once: the window is wanted,
/// nothing is known of a position or a connection, no timer runs, and the first status
/// may be written without a wait.
pub proof fn law_fresh_plugin(now: u64, text: Seq<char>)
    requires
        now >= 1_000_000_000,
    ensures
        ({
            let c = CoreView::fresh(now);
            &&& c.wants_spawn(now)
            &&& c.spawn_act() == (Action::SpawnHelper {
                theme: "ring.slint"@,
                x: -1i32,
                y: -1i32,
            })
            &&& c.cfg.update_ms == 100
            &&& c.cfg.wdis_enabled && c.cfg.wdis_hold_ms == 4000
            &&& c.interval_id == 0 && c.tick == 0
            &&& c.session == SessionView::<u64>::fresh()
            &&& !c.muted && !c.monitoring
            &&& c.helper is None && c.restarts == 0 && !c.gave_up && !c.crash_notified
            &&& c.win_pos is None && c.pending_pos is None
            &&& c.next_retry == now && c.last_pos_write == now
            &&& c.last_theme_list.len() == 0 && c.last_theme_err_notified.len() == 0
            &&& c.helper_state == HelperState::Idle
            &&& text.len() > 0 ==> c.mirrors(text, now)
            &&& c.mirrors_state(now)
        }),
{
}

/// Settings that could be read take effect, each on its own: a switch as it is, a
/// number within its bounds or at the nearest one, a theme when its name is valid.
/// Settings that could not be read stay as they were, but a position is there only
/// where both coordinates are.
pub proof fn law_settings_take_effect(c: CoreView, p: ParsedCfg<Seq<char>>)
    ensures
        ({
            let after = c.loaded(p);
            &&& after == (CoreView { cfg: after.cfg, win_pos: after.win_pos, ..c })
            &&& p.visible is None ==> after.cfg.visible == c.cfg.visible
            &&& p.visible is Some ==> after.cfg.visible == p.visible->Some_0
            &&& p.wdis_enabled is None ==> after.cfg.wdis_enabled == c.cfg.wdis_enabled
            &&& p.wdis_enabled is Some ==> after.cfg.wdis_enabled == p.wdis_enabled->Some_0
            &&& p.update_ms is None ==> after.cfg.update_ms == c.cfg.update_ms
            &&& p.update_ms is Some && p.update_ms->Some_0 < 50 ==> after.cfg.update_ms == 50
            &&& p.update_ms is Some && p.update_ms->Some_0 > 1000 ==> after.cfg.update_ms == 1000
            &&& p.update_ms is Some && 50 <= p.update_ms->Some_0 <= 1000 ==> after.cfg.update_ms
                == p.update_ms->Some_0
            &&& p.wdis_hold_ms is None ==> after.cfg.wdis_hold_ms == c.cfg.wdis_hold_ms
            &&& p.wdis_hold_ms is Some && p.wdis_hold_ms->Some_0 < 1000
                ==> after.cfg.wdis_hold_ms == 1000
            &&& p.wdis_hold_ms is Some && p.wdis_hold_ms->Some_0 > 30000
                ==> after.cfg.wdis_hold_ms == 30000
            &&& p.wdis_hold_ms is Some && 1000 <= p.wdis_hold_ms->Some_0 <= 30000
                ==> after.cfg.wdis_hold_ms == p.wdis_hold_ms->Some_0
            &&& p.theme is Some && valid_name(p.theme->Some_0) ==> after.cfg.theme
                == p.theme->Some_0
            &&& p.theme is Some && !valid_name(p.theme->Some_0) ==> after.cfg.theme == c.cfg.theme
            &&& p.theme is None ==> after.cfg.theme == c.cfg.theme
            &&& after.win_pos is Some <==> p.window_x is Some && p.window_y is Some
            &&& after.win_pos is Some ==> after.win_pos->Some_0.0 == p.window_x->Some_0
                && after.win_pos->Some_0.1 == p.window_y->Some_0
        }),
{
}

/// Each setting is read from the text under its own key.
pub proof fn law_settings_are_read(raw: RawCfg<Seq<char>>, n: u64, b: bool, x: i32)
    ensures
        ({
            let word = if b {
                "true"@
            } else {
                "false"@
            };
            let digits = decimal(n as nat);
            &&& raw.visible == Some(word) ==> raw.parsed().visible == Some(b)
            &&& raw.wdis_enabled == Some(word) ==> raw.parsed().wdis_enabled == Some(b)
            &&& raw.update_ms == Some(digits) ==> raw.parsed().update_ms == Some(n)
            &&& raw.wdis_hold_ms == Some(digits) ==> raw.parsed().wdis_hold_ms == Some(n)
            &&& raw.window_x == Some(signed_decimal(x as int)) ==> raw.parsed().window_x == Some(x)
            &&& raw.window_y == Some(signed_decimal(x as int)) ==> raw.parsed().window_y == Some(x)
            &&& raw.theme is Some ==> raw.parsed().theme == json_string(raw.theme->Some_0)
            &&& raw.theme is None ==> raw.parsed().theme is None
            &&& raw.visible is None ==> raw.parsed().visible is None
            &&& raw.wdis_enabled is None ==> raw.parsed().wdis_enabled is None
            &&& raw.update_ms is None ==> raw.parsed().update_ms is None
            &&& raw.wdis_hold_ms is None ==> raw.parsed().wdis_hold_ms is None
            &&& raw.window_x is None ==> raw.parsed().window_x is None
            &&& raw.window_y is None ==> raw.parsed().window_y is None
        }),
{
    crate::json::lemma_json_round_trip(x, n);
    reveal_strlit("true");
    reveal_strlit("false");
    assert(crate::json::bare("true"@) =~= "true"@);
    assert(crate::json::bare("false"@) =~= "false"@);
    assert("true"@.len() != "false"@.len());
}

/// What an event of the window changes: hiding it stores that, a move is kept to be
/// written, a theme that is shown clears all failures, a new theme error is remembered,
/// and any other event changes nothing.
pub proof fn law_window_events_change(c: CoreView, ev: Ev<Seq<char>>, now: u64)
    ensures
        ({
            let after = c.after_event(ev, now);
            &&& ev is Hide ==> after == (CoreView {
                cfg: Cfg { visible: false, ..c.cfg },
                helper_state: HelperState::Hidden,
                ..c
            })
            &&& ev is Moved ==> after == (CoreView {
                win_pos: after.win_pos,
                pending_pos: after.pending_pos,
                last_pos_write: after.last_pos_write,
                ..c
            })
            &&& ev is Moved && now - c.last_pos_write >= 1_000_000_000 ==> after.win_pos == Some(
                (ev->Moved_x, ev->Moved_y),
            ) && after.pending_pos is None && after.last_pos_write == now
            &&& ev is Moved && now - c.last_pos_write < 1_000_000_000 ==> after.pending_pos
                == Some((ev->Moved_x, ev->Moved_y)) && after.win_pos == c.win_pos
                && after.last_pos_write == c.last_pos_write
            &&& ev is Ready ==> after == (CoreView {
                restarts: 0,
                gave_up: false,
                crash_notified: false,
                helper_state: HelperState::Running,
                ..c
            })
            &&& ev is ThemeError && ev->ThemeError_message.len() > 0 ==> after == (CoreView {
                last_theme_err_notified: ev->ThemeError_message,
                ..c
            })
            &&& ev is ThemeError && ev->ThemeError_message.len() == 0 ==> after == c
            &&& ev is Mute || ev is Monitoring || ev is Menu || ev is Log || ev is Bye ==> after
                == c
        }),
{
}

/// What an event of the window brings about: a click asks the host to switch mute or
/// monitoring to the other side, the menu can reload the theme, hiding is stored, the
/// theme error is cleared when a theme is shown and stored when there is one, and the
/// rest is logged.
pub proof fn law_window_events_act(c: CoreView, ev: Ev<Seq<char>>, now: u64)
    ensures
        ({
            let todo = c.event_acts(ev, now);
            &&& ev is Mute ==> todo.len() == 1 && todo[0] is SetMuted && todo[0]->SetMuted_on
                != c.muted
            &&& ev is Monitoring ==> todo.len() == 1 && todo[0] is SetMonitoring
                && todo[0]->SetMonitoring_on != c.monitoring
            &&& ev is Menu && ev->Menu_action == "reload-theme"@ ==> todo == c.reload_acts()
            &&& ev is Menu && ev->Menu_action != "reload-theme"@ ==> todo == seq![
                log_line(2, "theme menu action: "@ + ev->Menu_action),
            ]
            &&& ev is Moved && now - c.last_pos_write >= 1_000_000_000 ==> todo == seq![
                Action::<Seq<char>>::SetConfig {
                    key: "windowX"@,
                    json: signed_decimal(ev->Moved_x as int),
                },
                Action::<Seq<char>>::SetConfig {
                    key: "windowY"@,
                    json: signed_decimal(ev->Moved_y as int),
                },
            ]
            &&& ev is Moved && now - c.last_pos_write < 1_000_000_000 ==> todo.len() == 0
            &&& ev is Hide ==> todo == seq![
                Action::<Seq<char>>::SetConfig { key: "visible"@, json: "false"@ },
            ]
            &&& ev is Ready ==> todo.len() == 2 && todo[0] == (Action::<Seq<char>>::SetConfig {
                key: "themeError"@,
                json: "\"\""@,
            }) && todo[1] == log_line(
                2,
                "theme ready: "@ + ev->Ready_theme + (if ev->Ready_reloaded {
                    " (hot-swap)"@
                } else {
                    ""@
                }),
            )
            &&& ev is ThemeError && ev->ThemeError_message.len() > 0 ==> todo.len() >= 2 && todo[0]
                == log_line(1, "theme error: "@ + ev->ThemeError_message) && todo[1] == (Action::<
                Seq<char>,
            >::SetConfig { key: "themeError"@, json: json_quote(ev->ThemeError_message) })
            &&& ev is ThemeError && ev->ThemeError_message.len() > 0 && ev->ThemeError_message
                != c.last_theme_err_notified ==> todo.len() == 3 && todo[2] is Notify
                && todo[2]->Notify_title == "悬浮窗主题错误"@ && todo[2]->Notify_body
                == ev->ThemeError_message
            &&& ev is ThemeError && ev->ThemeError_message == c.last_theme_err_notified
                ==> !notifies(todo) && todo.len() <= 2
            &&& ev is ThemeError && ev->ThemeError_message.len() == 0 ==> todo.len() == 0
            &&& ev is Log ==> todo == seq![log_line(3, "[helper] "@ + ev->Log_message)]
            &&& ev is Bye ==> todo.len() == 0
        }),
{
}

/// What the host reports changes what it is about and nothing else.
pub proof fn law_host_events_change(c: CoreView, ev: HostEvent<Seq<char>>, now: u64)
    ensures
        ({
            let after = c.after_host_event(ev, now);
            &&& ev is DeviceConnected ==> after == (CoreView { session: after.session, ..c })
                && after.session.connected_at == Some(now) && after.session.label
                == ev->DeviceConnected_label && after.session.mode == ev->DeviceConnected_mode
                && !after.session.inferred
            &&& ev is DeviceDisconnected ==> after == (CoreView { session: after.session, ..c })
                && after.session.connected_at is None && after.session.label.len() == 0
                && after.session.mode.len() == 0
            &&& after.session.last_streaming == c.session.last_streaming
            &&& ev is MuteChanged ==> after == (CoreView { muted: ev->MuteChanged_muted, ..c })
            &&& ev is MonitoringChanged ==> after == (CoreView {
                monitoring: ev->MonitoringChanged_enabled,
                ..c
            })
        }),
        ev is DeviceConnected ==> crate::events::host_event_acts(ev) == seq![
            log_line(
                2,
                "device connected: "@ + ev->DeviceConnected_label + (" ("@
                    + ev->DeviceConnected_mode + ")"@),
            ),
        ],
        ev is DeviceDisconnected ==> crate::events::host_event_acts(ev) == seq![
            log_line(2, "device disconnected"@),
        ],
        ev is MuteChanged || ev is MonitoringChanged ==> crate::events::host_event_acts(ev).len()
            == 0,
{
}

/// The events of the host are told by their names.
pub proof fn law_host_events_have_names()
    ensures
        crate::events::kind_of_event("device_connected"@)
            == crate::events::EventKind::DeviceConnected,
        crate::events::kind_of_event("device_disconnected"@)
            == crate::events::EventKind::DeviceDisconnected,
        crate::events::kind_of_event("mute_changed"@) == crate::events::EventKind::MuteChanged,
        crate::events::kind_of_event("monitoring_changed"@)
            == crate::events::EventKind::MonitoringChanged,
        forall|name: Seq<char>|
            name != "device_connected"@ && name != "device_disconnected"@ && name
                != "mute_changed"@ && name != "monitoring_changed"@
                ==> #[trigger] crate::events::kind_of_event(name)
                == crate::events::EventKind::Other,
{
    reveal_strlit("device_connected");
    reveal_strlit("device_disconnected");
    reveal_strlit("mute_changed");
    reveal_strlit("monitoring_changed");
    assert("device_connected"@.len() == 16 && "device_disconnected"@.len() == 19
        && "mute_changed"@.len() == 12 && "monitoring_changed"@.len() == 18);
}

/// A transcript goes to the window that is there, for as long as the user wants it to
/// stay, where transcripts are wanted at all.
pub proof fn law_transcripts_are_shown_as_set(c: CoreView, text: Seq<char>)
    ensures
        c.cfg.wdis_enabled && c.helper is Some ==> c.wdis_acts(text) == seq![
            Action::<Seq<char>>::Send(Cmd::Wdis { text, hold_ms: c.cfg.wdis_hold_ms }),
        ],
        !c.cfg.wdis_enabled || c.helper is None ==> c.wdis_acts(text).len() == 0,
        c.accepts(c.interval_id, "cfw"@),
{
}

/// The work of a tick: the process is looked after first, its events come before the
/// audio, settings are read on every tenth tick and themes listed on every fiftieth, and
/// the position is written last.
pub proof fn law_work_of_a_tick(tick: u64)
    ensures
        ({
            let work = stages(tick);
            &&& work[0] == Stage::Supervise && work[1] == Stage::Events && work[2] == Stage::Audio
            &&& work.last() == Stage::FlushPosition
            &&& work.contains(Stage::PollConfig) == (tick % 10 == 0)
            &&& work.contains(Stage::ScanThemes) == (tick % 50 == 0)
            &&& work.len() == 4 + (if tick % 10 == 0 {
                1int
            } else {
                0
            }) + (if tick % 50 == 0 {
                1int
            } else {
                0
            })
            &&& work.no_duplicates()
        }),
        tick < u64::MAX ==> next_tick(tick) == tick + 1,
        next_tick(u64::MAX) == u64::MAX,
{
    let work = stages(tick);
    if tick % 10 == 0 {
        assert(work[3] == Stage::PollConfig);
        if tick % 50 == 0 {
            assert(work[4] == Stage::ScanThemes);
        }
    }
}

/// New settings bring about what they are for, and only that: another time between ticks
/// stops the timer that runs and starts one of the new time, another theme is shown.
pub proof fn law_new_settings_act(c: CoreView, p: ParsedCfg<Seq<char>>)
    ensures
        ({
            let after = c.loaded(p);
            let todo = c.poll_acts(p);
            &&& after.cfg.update_ms == c.cfg.update_ms && after.cfg.theme == c.cfg.theme
                ==> todo.len() == 0
            &&& after.cfg.update_ms == c.cfg.update_ms && after.cfg.theme != c.cfg.theme ==> todo
                == after.reload_acts()
            &&& after.cfg.update_ms != c.cfg.update_ms ==> {
                let clear = if c.interval_id != 0 {
                    seq![Action::<Seq<char>>::ClearInterval { id: c.interval_id }]
                } else {
                    seq![]
                };
                let timer = seq![
                    Action::<Seq<char>>::SetInterval { ms: after.cfg.update_ms, payload: "cfw"@ },
                    log_line(
                        2,
                        "tick interval now "@ + decimal(after.cfg.update_ms as nat) + "ms"@,
                    ),
                ];
                &&& after.cfg.theme == c.cfg.theme ==> todo == clear + timer
                &&& after.cfg.theme != c.cfg.theme ==> todo == clear + timer + after.reload_acts()
            }
        }),
{
}

/// A window that is to be seen again is started where there is none, and failures are
/// forgotten; one that is to be hidden is told so; one whose position was cleared goes
/// to its default place.
pub proof fn law_visibility_settles(c: CoreView, before: Before, now: u64)
    ensures
        ({
            let after = c.settled(before, now);
            let todo = c.settle_acts(before);
            &&& c.cfg.visible && !before.visible ==> after == (CoreView {
                gave_up: false,
                restarts: 0,
                next_retry: now,
                ..c
            })
            &&& c.cfg.visible == before.visible ==> after == c
            &&& !c.cfg.visible && before.visible ==> after == (CoreView {
                helper_state: if c.helper is Some {
                    HelperState::Hidden
                } else {
                    c.helper_state
                },
                ..c
            })
            &&& starts_window(todo) == (c.cfg.visible && !before.visible && c.helper is None)
            &&& c.cfg.visible && !before.visible && c.helper is None ==> todo[0] == start_at(
                c.cfg.theme,
                c.win_pos,
            )
            &&& !c.cfg.visible && before.visible && c.helper is Some ==> todo[0] == (Action::<
                Seq<char>,
            >::Send(Cmd::Visible { show: false }))
            &&& c.win_pos is None && before.had_pos && c.helper is Some ==> todo.last() == (
            Action::<Seq<char>>::Send(Cmd::PosDefault))
            &&& c.cfg.visible == before.visible && (c.win_pos is Some || !before.had_pos)
                ==> todo.len() == 0
            &&& c.helper is Some ==> {
                let hide = if !c.cfg.visible && before.visible {
                    seq![Action::<Seq<char>>::Send(Cmd::Visible { show: false })]
                } else {
                    seq![]
                };
                let place = if c.win_pos is None && before.had_pos {
                    seq![Action::<Seq<char>>::Send(Cmd::PosDefault)]
                } else {
                    seq![]
                };
                todo == hide + place
            }
            &&& c.helper is None ==> todo.len() == (if c.cfg.visible && !before.visible {
                1int
            } else {
                0
            })
        }),
{
    if c.cfg.visible && !before.visible && c.helper is None {
        assert(c.settle_acts(before)[0] is SpawnHelper);
    }
}

/// A start takes over what the settings and the host say, and starts the window at once
/// where it is to be seen, at the saved position.
pub proof fn law_start(
    now: u64,
    p: ParsedCfg<Seq<char>>,
    monitoring: Option<bool>,
    muted: Option<bool>,
    host: Option<Seq<char>>,
    dir: Seq<char>,
)
    requires
        now >= 1_000_000_000,
    ensures
        ({
            let c = CoreView::started(now, p, monitoring, muted);
            let todo = c.start_acts(host, dir);
            &&& c.monitoring == (monitoring == Some(true))
            &&& c.muted == (muted == Some(true))
            &&& c.cfg == CoreView::fresh(now).loaded(p).cfg
            &&& c.win_pos == CoreView::fresh(now).loaded(p).win_pos
            &&& c.helper_state == HelperState::Idle <==> c.cfg.visible
            &&& c.helper_state == HelperState::Hidden <==> !c.cfg.visible
            &&& c.helper is None && c.restarts == 0 && !c.gave_up && c.interval_id == 0
            &&& starts_window(todo) == c.cfg.visible
            &&& todo.last() == (Action::<Seq<char>>::SetInterval {
                ms: c.cfg.update_ms,
                payload: "cfw"@,
            })
            &&& c.cfg.visible ==> todo[todo.len() - 2] == start_at(c.cfg.theme, c.win_pos)
            &&& host is Some ==> todo[0] == log_line(
                2,
                "initializing against host "@ + host->Some_0,
            )
            &&& ({
                let n: int = if host is Some {
                    1
                } else {
                    0
                };
                &&& todo[n] == (Action::<Seq<char>>::ListThemes { force: true })
                &&& todo[n + 1] == (Action::<Seq<char>>::SetConfig {
                    key: "themesDir"@,
                    json: json_quote(dir),
                })
                &&& todo[n + 2] == (Action::<Seq<char>>::SetPanelIcon {
                    panel: "settings"@,
                    icon: "🪟"@,
                })
            })
            &&& todo.len() == (if host is Some {
                5int
            } else {
                4
            }) + (if c.cfg.visible {
                1int
            } else {
                0
            })
        }),
{
    let c = CoreView::started(now, p, monitoring, muted);
    let todo = c.start_acts(host, dir);
    let n: int = if host is Some {
        1
    } else {
        0
    };
    if c.cfg.visible {
        assert(todo[n + 3] is SpawnHelper);
    }
}

} // verus!
