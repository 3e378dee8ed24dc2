//! What holds of the window: what a theme is given, what commands and presses do, and
//! where the window goes.

use vstd::prelude::*;

use crate::helper::Os;
use crate::members::{declared, first_report, law_only_declared_members_are_touched};
use crate::members::{info_line, load_message, next_load, reload_message, smooth_members};
use crate::members::{state_members, wdis_members, wdis_over};
use crate::members::{Derived, Given, LoadError, LoadNext, Member};
use crate::platform::{HardenStep, Point, WinHardening};
use crate::protocol::{Cmd, Ev, Real, StatePayload};
use crate::text::decimal;
use crate::theme::{error_texts, is_pick, members_report, warning_texts, Remark, Severity};
use crate::ui::{activated, all_callbacks, carried, dragged_all, place, pressed};
use crate::ui::{snapshot_message, task_of, Callback, HardenTask, SnapshotOutcome, Ui};

verus! {

/// Whether a set of members gives the one of that name this value, and no other.
pub open spec fn gives(
    set: Seq<Member<Seq<char>>>,
    name: Seq<char>,
    value: Given<Seq<char>>,
) -> bool {
    &&& set.contains(Member { name, value })
    &&& forall|m: Member<Seq<char>>| #[trigger]
        set.contains(m) && m.name == name ==> m.value == value
}

/// Whether a set of members leaves the one of that name alone.
pub open spec fn leaves(set: Seq<Member<Seq<char>>>, name: Seq<char>) -> bool {
    forall|m: Member<Seq<char>>| #[trigger] set.contains(m) ==> m.name != name
}

/// A theme that declares a property is given its value, and one that does not is left
/// alone.
pub open spec fn sets(
    all: Seq<Member<Seq<char>>>,
    props: Seq<Seq<char>>,
    name: Seq<char>,
    value: Given<Seq<char>>,
) -> bool {
    if props.contains(name) {
        gives(declared(all, props), name, value)
    } else {
        leaves(declared(all, props), name)
    }
}

proof fn lemma_sets(all: Seq<Member<Seq<char>>>, props: Seq<Seq<char>>, i: int)
    requires
        0 <= i < all.len(),
        forall|j: int| 0 <= j < all.len() && j != i ==> (#[trigger] all[j]).name != all[i].name,
    ensures
        sets(all, props, all[i].name, all[i].value),
{
    let set = declared(all, props);
    let name = all[i].name;
    let value = all[i].value;
    assert(all.contains(all[i]));
    law_only_declared_members_are_touched(all, props, all[i]);
    assert(all[i] == (Member { name, value }));
    assert forall|m: Member<Seq<char>>| #[trigger] set.contains(m) && m.name == name implies m.value
        == value && props.contains(name) by {
        law_only_declared_members_are_touched(all, props, m);
        let j = choose|j: int| 0 <= j < all.len() && all[j] == m;
        assert(all[j].name == all[i].name);
    }
}

proof fn lemma_member_words()
    ensures
        "input-level"@.len() == 11 && "input-level"@[0] == 'i',
        "processed-level"@.len() == 15 && "processed-level"@[0] == 'p',
        "smooth-level"@.len() == 12 && "smooth-level"@[0] == 's' && "smooth-level"@[1] == 'm',
        "level-percent"@.len() == 13,
        "muted"@.len() == 5,
        "streaming"@.len() == 9 && "streaming"@[0] == 's',
        "monitoring"@.len() == 10,
        "sample-rate"@.len() == 11 && "sample-rate"@[0] == 's',
        "channels"@.len() == 8 && "channels"@[0] == 'c',
        "queued-ms"@.len() == 9 && "queued-ms"@[0] == 'q',
        "session-seconds"@.len() == 15 && "session-seconds"@[0] == 's',
        "session-text"@.len() == 12 && "session-text"@[0] == 's' && "session-text"@[1] == 'e',
        "device-label"@.len() == 12 && "device-label"@[0] == 'd',
        "device-mode"@.len() == 11 && "device-mode"@[0] == 'd',
        "info-text"@.len() == 9 && "info-text"@[0] == 'i',
        "arc-path"@.len() == 8 && "arc-path"@[0] == 'a',
        "bars-path"@.len() == 9 && "bars-path"@[0] == 'b',
        "wdis-text"@.len() == 9,
        "wdis-visible"@.len() == 12,
{
    reveal_strlit("input-level");
    reveal_strlit("processed-level");
    reveal_strlit("smooth-level");
    reveal_strlit("level-percent");
    reveal_strlit("muted");
    reveal_strlit("streaming");
    reveal_strlit("monitoring");
    reveal_strlit("sample-rate");
    reveal_strlit("channels");
    reveal_strlit("queued-ms");
    reveal_strlit("session-seconds");
    reveal_strlit("session-text");
    reveal_strlit("device-label");
    reveal_strlit("device-mode");
    reveal_strlit("info-text");
    reveal_strlit("arc-path");
    reveal_strlit("bars-path");
    reveal_strlit("wdis-text");
    reveal_strlit("wdis-visible");
}

/// Every frame gives each property that a theme declares its own value from the frame,
/// and no property that it does not declare: the switches, the levels, the format, the
/// queue, the session and the device are those of the frame.
pub proof fn law_properties_show_the_frame(
    st: StatePayload<Seq<char>>,
    d: Derived<Seq<char>>,
    props: Seq<Seq<char>>,
)
    ensures
        ({
            let all = state_members(st, d);
            &&& sets(all, props, "muted"@, Given::Flag(st.muted))
            &&& sets(all, props, "streaming"@, Given::Flag(st.streaming))
            &&& sets(all, props, "monitoring"@, Given::Flag(st.monitoring))
            &&& sets(all, props, "input-level"@, Given::Number(st.level))
            &&& sets(all, props, "processed-level"@, Given::Number(st.processed))
            &&& sets(all, props, "smooth-level"@, Given::Number(d.smooth))
            &&& sets(all, props, "level-percent"@, Given::Number(d.percent))
            &&& sets(all, props, "sample-rate"@, Given::Whole(st.sample_rate as u64))
            &&& sets(all, props, "channels"@, Given::Whole(st.channels as u64))
            &&& sets(all, props, "queued-ms"@, Given::Number(st.queued_ms))
            &&& sets(all, props, "session-seconds"@, Given::Whole(st.session_seconds))
            &&& sets(all, props, "session-text"@, Given::Words(st.session_text))
            &&& sets(all, props, "device-label"@, Given::Words(st.device_label))
            &&& sets(all, props, "device-mode"@, Given::Words(st.device_mode))
            &&& sets(all, props, "info-text"@, Given::Words(info_line(st, d)))
            &&& sets(all, props, "arc-path"@, Given::Words(d.arc_path))
        }),
{
    let all = state_members(st, d);
    lemma_member_words();
    assert forall|i: int, j: int| 0 <= i < 16 && 0 <= j < 16 && i != j implies (
    #[trigger] all[j]).name != (#[trigger] all[i]).name by {}
    lemma_sets(all, props, 0);
    lemma_sets(all, props, 1);
    lemma_sets(all, props, 2);
    lemma_sets(all, props, 3);
    lemma_sets(all, props, 4);
    lemma_sets(all, props, 5);
    lemma_sets(all, props, 6);
    lemma_sets(all, props, 7);
    lemma_sets(all, props, 8);
    lemma_sets(all, props, 9);
    lemma_sets(all, props, 10);
    lemma_sets(all, props, 11);
    lemma_sets(all, props, 12);
    lemma_sets(all, props, 13);
    lemma_sets(all, props, 14);
    lemma_sets(all, props, 15);
}

/// The smoothed level sets the level, its percentage and the two paths; a transcript
/// sets its text and shows it, and its end hides it and leaves the text.
pub proof fn law_properties_show_level_and_transcript(
    smooth: Real,
    percent: Real,
    arc: Seq<char>,
    bars: Seq<char>,
    text: Seq<char>,
    props: Seq<Seq<char>>,
)
    ensures
        ({
            let all = smooth_members(smooth, percent, arc, bars);
            &&& all.len() == 4
            &&& sets(all, props, "smooth-level"@, Given::Number(smooth))
            &&& sets(all, props, "level-percent"@, Given::Number(percent))
            &&& sets(all, props, "arc-path"@, Given::Words(arc))
            &&& sets(all, props, "bars-path"@, Given::Words(bars))
        }),
        wdis_members(text).len() == 2,
        sets(wdis_members(text), props, "wdis-text"@, Given::Words(text)),
        sets(wdis_members(text), props, "wdis-visible"@, Given::Flag(true)),
        wdis_over().len() == 1,
        sets(wdis_over(), props, "wdis-visible"@, Given::Flag(false)),
        leaves(declared(wdis_over(), props), "wdis-text"@),
{
    lemma_member_words();
    let all = smooth_members(smooth, percent, arc, bars);
    lemma_sets(all, props, 0);
    lemma_sets(all, props, 1);
    lemma_sets(all, props, 2);
    lemma_sets(all, props, 3);
    lemma_sets(wdis_members(text), props, 0);
    lemma_sets(wdis_members(text), props, 1);
    lemma_sets(wdis_over(), props, 0);
    assert forall|m: Member<Seq<char>>| #[trigger]
        declared(wdis_over(), props).contains(m) implies m.name != "wdis-text"@ by {
        law_only_declared_members_are_touched(wdis_over(), props, m);
    }
}

/// The line that sums up a stream names rate, channels and queue in this order, and is
/// empty without a stream.
pub proof fn law_info_line(st: StatePayload<Seq<char>>, d: Derived<Seq<char>>)
    ensures
        st.sample_rate == 0 ==> info_line(st, d).len() == 0,
        st.sample_rate > 0 ==> d.khz.is_prefix_of(info_line(st, d)) && info_line(st, d) == d.khz
            + "kHz · "@ + decimal(st.channels as nat) + "ch · q"@ + d.queued + "ms"@,
{
    if st.sample_rate > 0 {
        let line = info_line(st, d);
        assert(d.khz =~= line.subrange(0, d.khz.len() as int));
    }
}

/// Every command of the plugin becomes the task that it names, with what it carries: a
/// window is shown or hidden as the command says, and moved where it says.
pub proof fn law_commands_are_obeyed(ui: Ui, cmd: Cmd<Seq<char>>)
    ensures
        cmd is Visible ==> task_of(cmd) is SetVisible && (task_of(cmd)->SetVisible_show
            <==> cmd->Visible_show),
        cmd is Pos ==> task_of(cmd) is MoveTo && task_of(cmd)->MoveTo_0.x == cmd->Pos_x && task_of(
            cmd,
        )->MoveTo_0.y == cmd->Pos_y,
        cmd is State ==> task_of(cmd) is ShowState && task_of(cmd)->ShowState_0 == cmd->State_0,
        cmd is Theme ==> task_of(cmd) is LoadTheme && task_of(cmd)->LoadTheme_path
            == cmd->Theme_path,
        cmd is PosDefault <==> task_of(cmd) is PlaceDefault,
        cmd is Wdis ==> task_of(cmd) is ShowTranscript && task_of(cmd)->ShowTranscript_text
            == cmd->Wdis_text && task_of(cmd)->ShowTranscript_hold_ms == cmd->Wdis_hold_ms,
        cmd is Snapshot ==> task_of(cmd) is TakeSnapshot && task_of(cmd)->TakeSnapshot_path
            == cmd->Snapshot_path,
        cmd is Quit <==> task_of(cmd) is Leave,
        cmd is Pos ==> ui.after_cmd(cmd) == (Ui {
            last_pos: Some(Point { x: cmd->Pos_x, y: cmd->Pos_y }),
            ..ui
        }),
        !(cmd is Pos) ==> ui.after_cmd(cmd) == ui,
{
}

/// Different commands ask for different things.
pub proof fn law_commands_are_told_apart(a: Cmd<Seq<char>>, b: Cmd<Seq<char>>)
    requires
        task_of(a) == task_of(b),
    ensures
        a == b,
{
}

/// A drag reports where it ended: after two motions or more, on a platform with
/// positions, every end but the one at zero and zero is reported with its coordinates,
/// the ones on the edges of the screen among them, and is then known as the window's
/// position. A click, the dummy position and an unknown one report nothing.
pub proof fn law_drags_report_their_end(
    ui: Ui,
    path: Seq<(Option<Point>, Option<Point>)>,
    usable: bool,
    at: Option<Point>,
)
    requires
        ui.dragging,
        ui.drag_events == 0,
        path.len() < u32::MAX,
    ensures
        ({
            let end = dragged_all(ui, path, usable);
            &&& usable && path.len() >= 2 && at is Some && (at->Some_0.x != 0 || at->Some_0.y != 0)
                ==> end.drop_report(usable, at) == Some(
                Ev::<Seq<char>>::Moved { x: at->Some_0.x, y: at->Some_0.y },
            ) && end.released(usable, at).last_pos == at
            &&& !usable || path.len() < 2 || at is None || (at->Some_0.x == 0 && at->Some_0.y == 0)
                ==> end.drop_report(usable, at) is None && end.released(usable, at).last_pos
                == end.last_pos
            &&& !end.released(usable, at).dragging
            &&& end.released(usable, at).drag_last is None && end.released(usable, at).grip is None
        }),
{
    crate::ui::law_clicks_are_no_drags(ui, path, usable, at);
}

/// A look at the window's position from time to time reports a move of more than two
/// pixels in either direction, and the first position that is seen; any position but
/// zero and zero counts, and none is looked at during a drag.
pub proof fn law_looks_report_moves(ui: Ui, usable: bool, at: Option<Point>)
    ensures
        ({
            let seen = usable && !ui.dragging && at is Some && (at->Some_0.x != 0 || at->Some_0.y
                != 0);
            let far = ui.last_pos is None || ui.last_pos->Some_0.x - at->Some_0.x > 2
                || at->Some_0.x - ui.last_pos->Some_0.x > 2 || ui.last_pos->Some_0.y
                - at->Some_0.y > 2 || at->Some_0.y - ui.last_pos->Some_0.y > 2;
            &&& seen && far ==> ui.look_report(usable, at) == Some(
                Ev::<Seq<char>>::Moved { x: at->Some_0.x, y: at->Some_0.y },
            )
            &&& !seen || !far ==> ui.look_report(usable, at) is None
            &&& seen ==> ui.looked(usable, at) == (Ui { last_pos: at, ..ui })
            &&& !seen ==> ui.looked(usable, at) == ui
        }),
{
}

/// A press starts a drag with no motion yet; a motion is counted and keeps the rest; a
/// theme that takes over ends a drag and forgets the position, and nothing else.
pub proof fn law_drags_begin_and_end(
    ui: Ui,
    usable: bool,
    cursor: Option<Point>,
    pointer: Option<Point>,
    at: Option<Point>,
)
    ensures
        ui.grabbed(cursor, pointer) == (Ui {
            dragging: true,
            drag_last: cursor,
            grip: pointer,
            drag_events: 0,
            ..ui
        }),
        !ui.dragging ==> ui.dragged(usable, cursor, pointer) == ui && ui.drag_target(
            usable,
            cursor,
            pointer,
            at,
        ) is None,
        ui.dragging && ui.drag_events < u32::MAX ==> ui.dragged(usable, cursor, pointer) == (Ui {
            drag_events: (ui.drag_events + 1) as u32,
            drag_last: ui.dragged(usable, cursor, pointer).drag_last,
            grip: ui.dragged(usable, cursor, pointer).grip,
            ..ui
        }),
        ui.dragging && (!usable || cursor is None) ==> ui.dragged(
            usable,
            cursor,
            pointer,
        ).drag_last == ui.drag_last,
        ui.dragging && usable && cursor is Some ==> ui.dragged(usable, cursor, pointer).drag_last
            == cursor,
        ui.dragging && ui.grip is Some ==> ui.dragged(usable, cursor, pointer).grip == ui.grip,
        ui.dragging && cursor is Some ==> ui.dragged(usable, cursor, pointer).grip == ui.grip,
        ui.dragging && cursor is None && ui.grip is None ==> ui.dragged(
            usable,
            cursor,
            pointer,
        ).grip == pointer,
        ui.taken_over() == (Ui {
            dragging: false,
            drag_last: None,
            grip: None,
            drag_events: 0,
            last_pos: None,
            ..ui
        }),
        !Ui::initial().dragging && Ui::initial().last_pos is None && Ui::initial().win_tick == 0
            && !Ui::initial().x11_flags_done && Ui::initial().mac_policy_ticks == 0
            && Ui::initial().win.hwnd is None && !Ui::initial().win.applied,
{
}

/// During a drag a window whose place is known goes as far as the cursor did in both
/// directions, and not at all when the cursor did not move or cannot place it.
pub proof fn law_drag_moves(ui: Ui, usable: bool, from: Point, to: Point, p: Point)
    requires
        ui.dragging,
        ui.drag_last == Some(from),
        i32::MIN <= p.x + (to.x - from.x) <= i32::MAX,
        i32::MIN <= p.y + (to.y - from.y) <= i32::MAX,
    ensures
        ui.drag_fits(usable, Some(to), None, Some(p)),
        ({
            let target = ui.drag_target(usable, Some(to), None, Some(p));
            &&& usable && (to.x != from.x || to.y != from.y) ==> target is Some
                && target->Some_0.x - p.x == to.x - from.x && target->Some_0.y - p.y == to.y
                - from.y
            &&& !usable || (to.x == from.x && to.y == from.y) ==> target is None
            &&& usable ==> ui.dragged(usable, Some(to), None).drag_last == Some(to)
        }),
        ui.drag_target(usable, Some(to), None, None) is None,
{
}

/// The window goes where it is asked to; else to the top right of the screen, with the
/// margin to the right and above it and never left of the screen; and nowhere without a
/// screen.
pub proof fn law_places(
    pos: Option<Point>,
    screen: Option<(i32, i32)>,
    width: u32,
    margin: i32,
)
    requires
        margin >= 0,
    ensures
        pos is Some ==> place(pos, screen, width, margin) == pos,
        pos is None && screen is None ==> place(pos, screen, width, margin) is None,
        pos is None && screen is Some && screen->Some_0.0 <= 0 ==> place(
            pos,
            screen,
            width,
            margin,
        ) is None,
        pos is None && screen is Some && screen->Some_0.0 > 0 ==> {
            let p = place(pos, screen, width, margin);
            &&& p is Some
            &&& p->Some_0.y == margin
            &&& p->Some_0.x >= 0
            &&& screen->Some_0.0 >= width + margin ==> p->Some_0.x + width + margin
                == screen->Some_0.0
            &&& screen->Some_0.0 < width + margin ==> p->Some_0.x == 0
        },
{
}

/// A theme that takes over keeps the place of the window before it, and only the first
/// one goes where the start asked.
pub proof fn law_takeover_keeps_the_place(old_pos: Option<Point>, asked: Option<(i32, i32)>)
    ensures
        old_pos is Some ==> carried(old_pos, asked) == old_pos,
        old_pos is None ==> (carried(old_pos, asked) is Some <==> asked is Some),
        old_pos is None && asked is Some ==> carried(old_pos, asked)->Some_0.x == asked->Some_0.0
            && carried(old_pos, asked)->Some_0.y == asked->Some_0.1,
{
}

/// A theme that is shown is reported ready under its name, and whether it replaced
/// another; one that cannot be shown is an error.
pub proof fn law_themes_report(theme: Seq<char>, shown: bool, reloaded: bool)
    ensures
        activated(theme, shown, reloaded) is Ready <==> shown,
        activated(theme, shown, reloaded) is ThemeError <==> !shown,
        shown ==> activated(theme, shown, reloaded)->Ready_theme == theme && activated(
            theme,
            shown,
            reloaded,
        )->Ready_reloaded == reloaded,
        !shown ==> activated(theme, shown, reloaded)->ThemeError_message == "cannot show window"@,
{
}

/// What is reported of the first theme: nothing where it loads, its own error where the
/// built-in one stands in, and that there is none where that fails too.
pub proof fn law_first_theme_reports(error: Option<Seq<char>>, fatal: Option<Seq<char>>)
    ensures
        error is None && fatal is None <==> first_report(error, fatal) is None,
        fatal is Some ==> first_report(error, fatal) == Some(
            Ev::ThemeError { message: "fatal: cannot load any theme: "@ + fatal->Some_0 },
        ),
        fatal is None && error is Some ==> first_report(error, fatal) == Some(
            Ev::ThemeError { message: error->Some_0 },
        ),
        next_load(false, true) == LoadNext::Show,
        next_load(false, false) == LoadNext::Show,
        next_load(true, false) == LoadNext::TryBuiltin,
        next_load(true, true) == LoadNext::GiveUp,
{
}

/// The messages of themes that could not be loaded name the file and the reason.
pub proof fn law_load_messages(path: Seq<char>, why: Seq<char>)
    ensures
        load_message(path, LoadError::Read(why)) == "cannot read "@ + path + (": "@ + why),
        reload_message(path, LoadError::Read(why)) == load_message(path, LoadError::Read(why)),
        load_message(path, LoadError::Compile(why)) == why,
        reload_message(path, LoadError::Compile(why)) == why,
        reload_message(path, LoadError::Create(why)) == path + ": create instance: "@ + why,
        load_message(path, LoadError::Create(why)) == path + ": "@ + reload_message(
            path,
            LoadError::Create(why),
        ),
{
}

/// Presses report what they are for: the mute part mute, the monitoring part monitoring,
/// a menu entry its action, the hide part hiding; drags report nothing when pressed.
pub proof fn law_presses_report(argument: Option<Seq<char>>)
    ensures
        pressed(Callback::MuteToggle, argument) == Some(Ev::<Seq<char>>::Mute),
        pressed(Callback::MonitoringToggle, argument) == Some(Ev::<Seq<char>>::Monitoring),
        pressed(Callback::HideWindow, argument) == Some(Ev::<Seq<char>>::Hide),
        argument is Some ==> pressed(Callback::MenuAction, argument) == Some(
            Ev::<Seq<char>>::Menu { action: argument->Some_0 },
        ),
        argument is None ==> pressed(Callback::MenuAction, argument) is Some && pressed(
            Callback::MenuAction,
            argument,
        )->Some_0 is Menu && pressed(Callback::MenuAction, argument)->Some_0->Menu_action.len()
            == 0,
        pressed(Callback::DragStart, argument) is None,
        pressed(Callback::DragMove, argument) is None,
        pressed(Callback::DragEnd, argument) is None,
{
}

/// The callbacks have the names of the theme contract, each of them is attached at most
/// once, and all are known.
pub proof fn law_callbacks_have_names(c: Callback)
    ensures
        Callback::MuteToggle.label() == "mute-toggle"@,
        Callback::MonitoringToggle.label() == "monitoring-toggle"@,
        Callback::MenuAction.label() == "menu-action"@,
        Callback::HideWindow.label() == "hide-window"@,
        Callback::DragStart.label() == "drag-start"@,
        Callback::DragMove.label() == "drag-move"@,
        Callback::DragEnd.label() == "drag-end"@,
        all_callbacks().contains(c),
        all_callbacks().no_duplicates(),
{
    let all = all_callbacks();
    assert(all[0] == Callback::MuteToggle && all[1] == Callback::MonitoringToggle && all[2]
        == Callback::MenuAction && all[3] == Callback::HideWindow && all[4] == Callback::DragStart
        && all[5] == Callback::DragMove && all[6] == Callback::DragEnd);
}

/// On Windows the whole recipe is applied once, as soon as there is a window and its
/// handle; later it is put on top again on every thirtieth tick, always with the handle
/// that was found first.
pub proof fn law_windows_recipe(w: WinHardening, found: Option<usize>, tick: u32)
    ensures
        w.hwnd is Some ==> w.after(found).hwnd == w.hwnd,
        w.hwnd is None ==> w.after(found).hwnd == found,
        w.after(found).applied <==> w.applied || w.hwnd is Some || found is Some,
        w.hwnd is None && found is None ==> w.step_at(found, tick) == HardenStep::Nothing,
        !w.applied && w.after(found).hwnd is Some ==> w.step_at(found, tick)
            == (HardenStep::Apply { hwnd: w.after(found).hwnd->Some_0 }),
        w.applied && w.after(found).hwnd is Some && tick % 30 == 0 ==> w.step_at(found, tick)
            == (HardenStep::Refresh { hwnd: w.after(found).hwnd->Some_0 }),
        w.applied && tick % 30 != 0 ==> w.step_at(found, tick) == HardenStep::Nothing,
        w.after(found).step_at(found, tick) is Apply ==> false,
{
}

/// What is done to the window on the ticks of each platform: the recipe on Windows while
/// there is a theme, the taskbar once from the fourth tick on under X11, the policy on
/// the first ten ticks on macOS. Each tick is counted, and nothing of a drag or of the
/// position is touched.
pub proof fn law_platform_ticks(ui: Ui, os: Os, theme: bool, found: Option<usize>)
    requires
        ui.win_tick < u32::MAX,
    ensures
        ({
            let after = ui.hardened(os, theme, found);
            let task = ui.harden_task(os, theme, found);
            &&& after.win_tick == ui.win_tick + 1
            &&& after == (Ui {
                win_tick: after.win_tick,
                win: after.win,
                x11_flags_done: after.x11_flags_done,
                mac_policy_ticks: after.mac_policy_ticks,
                ..ui
            })
            &&& os == Os::Windows ==> after.x11_flags_done == ui.x11_flags_done
                && after.mac_policy_ticks == ui.mac_policy_ticks
            &&& os == Os::Windows && theme ==> task == HardenTask::Windows(
                ui.win.step_at(found, (ui.win_tick + 1) as u32),
            ) && after.win == ui.win.after(found)
            &&& os == Os::Windows && !theme ==> task == HardenTask::Nothing && after.win == ui.win
            &&& os == Os::Linux ==> (task == HardenTask::SkipTaskbar <==> !ui.x11_flags_done
                && ui.win_tick >= 3 && theme) && (task == HardenTask::SkipTaskbar || task
                == HardenTask::Nothing) && after.win == ui.win && after.mac_policy_ticks
                == ui.mac_policy_ticks
            &&& os == Os::Linux ==> (after.x11_flags_done <==> ui.x11_flags_done || task
                == HardenTask::SkipTaskbar)
            &&& os == Os::Macos ==> (task == HardenTask::AccessoryPolicy <==> ui.mac_policy_ticks
                < 10) && (task == HardenTask::AccessoryPolicy || task == HardenTask::Nothing)
                && after.win == ui.win && after.x11_flags_done == ui.x11_flags_done
            &&& os == Os::Macos && ui.mac_policy_ticks < 10 ==> after.mac_policy_ticks
                == ui.mac_policy_ticks + 1
            &&& os == Os::Macos && ui.mac_policy_ticks >= 10 ==> after.mac_policy_ticks
                == ui.mac_policy_ticks
        }),
{
}

/// What is told of a snapshot: where it is and how large, width before height, or what
/// went wrong.
pub proof fn law_snapshots_are_told(path: Seq<char>, width: u32, height: u32, why: Seq<char>)
    ensures
        snapshot_message(SnapshotOutcome::Written { path, width, height }) == "snapshot written: "@
            + path + " ("@ + decimal(width as nat) + "x"@ + decimal(height as nat) + ")"@,
        snapshot_message(SnapshotOutcome::NotEncoded { error: why })
            == "snapshot encode failed: "@ + why,
        snapshot_message(SnapshotOutcome::NotCreated { error: why })
            == "snapshot create failed: "@ + why,
        snapshot_message(SnapshotOutcome::<Seq<char>>::Unavailable) == "snapshot unavailable"@,
{
}

/// Every error of the compiler is among the errors, and every warning among the
/// warnings, with its mark; nothing else is.
pub proof fn law_remarks_are_sorted(list: Seq<Remark<Seq<char>>>, i: int)
    requires
        0 <= i < list.len(),
    ensures
        list[i].severity == Severity::Error ==> error_texts(list).contains(list[i].text),
        list[i].severity == Severity::Warning ==> warning_texts(list).contains(
            "[theme warning] "@ + list[i].text,
        ),
        error_texts(list).len() + warning_texts(list).len() <= list.len(),
        (forall|k: int|
            0 <= k < list.len() ==> (#[trigger] list[k]).severity != Severity::Error)
            ==> error_texts(list).len() == 0,
        (forall|k: int|
            0 <= k < list.len() ==> (#[trigger] list[k]).severity != Severity::Warning)
            ==> warning_texts(list).len() == 0,
    decreases list.len(),
{
    let front = list.drop_last();
    if i < front.len() {
        law_remarks_are_sorted(front, i);
        assert(front[i] == list[i]);
        if list[i].severity == Severity::Error {
            let k = choose|k: int|
                0 <= k < error_texts(front).len() && error_texts(front)[k] == list[i].text;
            assert(error_texts(list)[k] == list[i].text);
        }
        if list[i].severity == Severity::Warning {
            let t = "[theme warning] "@ + list[i].text;
            let k = choose|k: int|
                0 <= k < warning_texts(front).len() && warning_texts(front)[k] == t;
            assert(warning_texts(list)[k] == t);
        }
    } else {
        if front.len() > 0 {
            law_remarks_are_sorted(front, 0);
        }
        if list[i].severity == Severity::Error {
            assert(error_texts(list).last() == list[i].text);
        }
        if list[i].severity == Severity::Warning {
            assert(warning_texts(list).last() == "[theme warning] "@ + list[i].text);
        }
    }
    if forall|k: int| 0 <= k < list.len() ==> (#[trigger] list[k]).severity != Severity::Error {
        assert forall|k: int| 0 <= k < front.len() implies (#[trigger] front[k]).severity
            != Severity::Error by {
            assert(front[k] == list[k]);
        }
    }
    if forall|k: int| 0 <= k < list.len() ==> (#[trigger] list[k]).severity != Severity::Warning {
        assert forall|k: int| 0 <= k < front.len() implies (#[trigger] front[k]).severity
            != Severity::Warning by {
            assert(front[k] == list[k]);
        }
    }
}

/// Remarks keep their order: the errors of a longer list are those of its head and then
/// those of its tail, and so are its warnings.
pub proof fn law_remarks_keep_their_order(
    a: Seq<Remark<Seq<char>>>,
    b: Seq<Remark<Seq<char>>>,
    r: Remark<Seq<char>>,
)
    ensures
        error_texts(a + b) == error_texts(a) + error_texts(b),
        warning_texts(a + b) == warning_texts(a) + warning_texts(b),
        r.severity == Severity::Error ==> error_texts(seq![r]) == seq![r.text] && warning_texts(
            seq![r],
        ).len() == 0,
        r.severity == Severity::Warning ==> warning_texts(seq![r]) == seq![
            "[theme warning] "@ + r.text,
        ] && error_texts(seq![r]).len() == 0,
        r.severity == Severity::Other ==> error_texts(seq![r]).len() == 0 && warning_texts(
            seq![r],
        ).len() == 0,
    decreases b.len(),
{
    let one = seq![r];
    assert(one.drop_last() =~= Seq::<Remark<Seq<char>>>::empty());
    assert(error_texts(one.drop_last()) =~= seq![]);
    assert(warning_texts(one.drop_last()) =~= seq![]);
    if b.len() == 0 {
        assert(a + b =~= a);
        assert(error_texts(a) + error_texts(b) =~= error_texts(a));
        assert(warning_texts(a) + warning_texts(b) =~= warning_texts(a));
    } else {
        law_remarks_keep_their_order(a, b.drop_last(), r);
        assert((a + b).drop_last() =~= a + b.drop_last());
        assert(error_texts(a + b) =~= error_texts(a) + error_texts(b));
        assert(warning_texts(a + b) =~= warning_texts(a) + warning_texts(b));
    }
}

/// Every component that comes first in this order can be the one of a theme.
pub proof fn law_components_can_be_chosen(names: Set<Seq<char>>, name: Seq<char>)
    ensures
        names.contains("App"@) ==> is_pick(names, "App"@),
        !names.contains("App"@) && names.contains("MainWindow"@) ==> is_pick(
            names,
            "MainWindow"@,
        ),
        !names.contains("App"@) && !names.contains("MainWindow"@) && names.contains(
            "FloatingWindow"@,
        ) ==> is_pick(names, "FloatingWindow"@),
        !names.contains("App"@) && !names.contains("MainWindow"@) && !names.contains(
            "FloatingWindow"@,
        ) ==> (is_pick(names, name) <==> names.contains(name)),
{
}

/// The component of a theme is one that it exports; `App` comes before `MainWindow`,
/// that before `FloatingWindow`, and these before all others.
pub proof fn law_component_choice(names: Set<Seq<char>>, name: Seq<char>)
    requires
        is_pick(names, name),
    ensures
        names.contains(name),
        names.contains("App"@) ==> name == "App"@,
        name == "MainWindow"@ ==> !names.contains("App"@),
        !names.contains("App"@) && names.contains("MainWindow"@) ==> name == "MainWindow"@,
        name == "FloatingWindow"@ ==> !names.contains("App"@) && !names.contains("MainWindow"@),
        names.contains("FloatingWindow"@) ==> name == "App"@ || name == "MainWindow"@ || name
            == "FloatingWindow"@,
{
    reveal_strlit("App");
    reveal_strlit("MainWindow");
    reveal_strlit("FloatingWindow");
    assert("App"@.len() == 3 && "MainWindow"@.len() == 10 && "FloatingWindow"@.len() == 14);
}

/// A check that found a component names file, component, properties and callbacks, each
/// on its line.
pub proof fn law_check_lines(
    path: Seq<char>,
    name: Seq<char>,
    props: Seq<Seq<char>>,
    cbs: Seq<Seq<char>>,
)
    ensures
        ({
            let lines = members_report(path, name, props, cbs);
            &&& lines.len() == 4
            &&& lines[0] == "OK "@ + path
            &&& lines[1] == "  component : "@ + name
            &&& lines[2] == "  properties: "@ + crate::text::join_text(props, ", "@)
            &&& lines[3] == "  callbacks : "@ + crate::text::join_text(cbs, ", "@)
        }),
{
}

} // verus!
