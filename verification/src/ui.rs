//! The window: dragging, its place, its callbacks and what commands do to it.

use vstd::prelude::*;

use crate::helper::Os;
use crate::platform::{windows_harden, HardenStep, Point, WinHardening, TOPMOST_TICKS};
use crate::plugin::next_count;
use crate::protocol::{Cmd, Ev, StatePayload};
use crate::text::{decimal, joined2, joined3, number, opt_text, same_text, texts};

verus! {

/// Moves during a drag from which on it is no click.
pub const DRAG_MOVES: u32 = 2;

/// Distance by which the window has to be elsewhere to have moved.
pub const MOVE_TOLERANCE: i64 = 2;

/// Ticks after which the X11 state is set, and for which the macOS policy is.
pub const X11_FIRST_TICK: u32 = 4;

pub const MAC_POLICY_TICKS: u32 = 10;

/// What is known of the window between two events.
#[derive(Debug, Clone, Copy, PartialEq, Eq, Structural)]
pub struct Ui {
    pub dragging: bool,
    /// Where the cursor was last seen during a drag.
    pub drag_last: Option<Point>,
    /// Where in the window the pointer took hold of it.
    pub grip: Option<Point>,
    pub drag_events: u32,
    /// The position reported or set last.
    pub last_pos: Option<Point>,
    pub win: WinHardening,
    pub win_tick: u32,
    pub x11_flags_done: bool,
    pub mac_policy_ticks: u32,
}

/// `p` moved as the cursor was, from `from` to `to`.
pub open spec fn moved_x(p: Point, from: Point, to: Point) -> int {
    p.x + (to.x - from.x)
}

pub open spec fn moved_y(p: Point, from: Point, to: Point) -> int {
    p.y + (to.y - from.y)
}

/// Whether the moved position is one that can be spoken of.
pub open spec fn on_grid(p: Point, from: Point, to: Point) -> bool {
    &&& i32::MIN <= moved_x(p, from, to) <= i32::MAX
    &&& i32::MIN <= moved_y(p, from, to) <= i32::MAX
}

/// Whether the moved position is one that can be spoken of.
pub fn move_fits(p: Point, from: Point, to: Point) -> (fits: bool)
    ensures
        fits == on_grid(p, from, to),
{
    let x: i64 = p.x as i64 + (to.x as i64 - from.x as i64);
    let y: i64 = p.y as i64 + (to.y as i64 - from.y as i64);
    i32::MIN as i64 <= x && x <= i32::MAX as i64 && i32::MIN as i64 <= y && y <= i32::MAX as i64
}

/// Where a window at `at` goes when it is moved from `from` to `to`, where that is
/// a move at all.
pub open spec fn step_target(from: Option<Point>, to: Option<Point>, at: Option<Point>) -> Option<
    Point,
> {
    match (from, to, at) {
        (Some(from), Some(to), Some(p)) => if from != to {
            Some(Point { x: moved_x(p, from, to) as i32, y: moved_y(p, from, to) as i32 })
        } else {
            None
        },
        _ => None,
    }
}

/// Whether that position is one that can be spoken of.
pub open spec fn step_fits(from: Option<Point>, to: Option<Point>, at: Option<Point>) -> bool {
    from is Some && to is Some && at is Some ==> on_grid(at->Some_0, from->Some_0, to->Some_0)
}

fn step(from: Option<Point>, to: Option<Point>, at: Option<Point>) -> (target: Option<Point>)
    requires
        step_fits(from, to, at),
    ensures
        target == step_target(from, to, at),
{
    match (from, to, at) {
        (Some(from), Some(to), Some(p)) => {
            if from.x != to.x || from.y != to.y {
                let x: i64 = p.x as i64 + (to.x as i64 - from.x as i64);
                let y: i64 = p.y as i64 + (to.y as i64 - from.y as i64);
                Some(Point { x: x as i32, y: y as i32 })
            } else {
                None
            }
        },
        _ => None,
    }
}

/// Whether a position is one that a platform reports for want of a real one.
pub open spec fn is_dummy(p: Point) -> bool {
    p.x == 0 && p.y == 0
}

/// Whether two positions are more than the tolerance apart.
pub open spec fn apart(a: Point, b: Point) -> bool {
    ||| a.x - b.x > MOVE_TOLERANCE
    ||| b.x - a.x > MOVE_TOLERANCE
    ||| a.y - b.y > MOVE_TOLERANCE
    ||| b.y - a.y > MOVE_TOLERANCE
}

fn differ(a: Point, b: Point) -> (yes: bool)
    ensures
        yes == apart(a, b),
{
    let dx: i64 = a.x as i64 - b.x as i64;
    let dy: i64 = a.y as i64 - b.y as i64;
    dx > MOVE_TOLERANCE || -dx > MOVE_TOLERANCE || dy > MOVE_TOLERANCE || -dy > MOVE_TOLERANCE
}

impl Ui {
    /// The window before anything has happened.
    pub open spec fn initial() -> Ui {
        Ui {
            dragging: false,
            drag_last: None,
            grip: None,
            drag_events: 0,
            last_pos: None,
            win: WinHardening { hwnd: None, applied: false },
            win_tick: 0,
            x11_flags_done: false,
            mac_policy_ticks: 0,
        }
    }

    /// The window after a motion during a drag. The cursor is where it is on the
    /// screen, as far as that can be found, and the pointer where it is in the window.
    pub open spec fn dragged(
        self,
        usable: bool,
        cursor: Option<Point>,
        pointer: Option<Point>,
    ) -> Ui {
        if !self.dragging {
            self
        } else {
            Ui {
                drag_events: next_count(self.drag_events),
                drag_last: if usable && cursor is Some {
                    cursor
                } else {
                    self.drag_last
                },
                grip: if cursor is None && self.grip is None {
                    pointer
                } else {
                    self.grip
                },
                ..self
            }
        }
    }

    /// Where the window goes on a motion during a drag: as far as the cursor went
    /// since it was last seen or, where the cursor cannot be found, as far as the
    /// pointer is from the place in the window that it holds.
    pub open spec fn drag_target(
        self,
        usable: bool,
        cursor: Option<Point>,
        pointer: Option<Point>,
        at: Option<Point>,
    ) -> Option<Point> {
        if !self.dragging {
            None
        } else if cursor is Some {
            if usable {
                step_target(self.drag_last, cursor, at)
            } else {
                None
            }
        } else {
            step_target(self.grip, pointer, at)
        }
    }

    /// Whether the target of a motion can be spoken of.
    pub open spec fn drag_fits(
        self,
        usable: bool,
        cursor: Option<Point>,
        pointer: Option<Point>,
        at: Option<Point>,
    ) -> bool {
        self.dragging ==> if cursor is Some {
            usable ==> step_fits(self.drag_last, cursor, at)
        } else {
            step_fits(self.grip, pointer, at)
        }
    }

    /// Whether the end of a drag is one of a real move, to `at`.
    pub open spec fn drops_at(self, usable: bool, at: Option<Point>) -> bool {
        self.drag_events >= DRAG_MOVES && usable && at is Some && !is_dummy(at->Some_0)
    }

    /// Whether a look at the position tells anything.
    pub open spec fn sees(self, usable: bool, at: Option<Point>) -> bool {
        usable && !self.dragging && at is Some && !is_dummy(at->Some_0)
    }

    /// The window once a button went down.
    pub open spec fn grabbed(self, cursor: Option<Point>, grip: Option<Point>) -> Ui {
        Ui { dragging: true, drag_last: cursor, grip, drag_events: 0, ..self }
    }

    /// The window once the button went up.
    pub open spec fn released(self, usable: bool, at: Option<Point>) -> Ui {
        Ui {
            dragging: false,
            drag_last: None,
            grip: None,
            last_pos: if self.drops_at(usable, at) {
                at
            } else {
                self.last_pos
            },
            ..self
        }
    }

    /// What the end of a drag reports.
    pub open spec fn drop_report(self, usable: bool, at: Option<Point>) -> Option<Ev<Seq<char>>> {
        if self.drops_at(usable, at) {
            Some(Ev::Moved { x: at->Some_0.x, y: at->Some_0.y })
        } else {
            None
        }
    }

    /// The window after a look at its position.
    pub open spec fn looked(self, usable: bool, at: Option<Point>) -> Ui {
        if self.sees(usable, at) {
            Ui { last_pos: at, ..self }
        } else {
            self
        }
    }

    /// What a look at the position reports.
    pub open spec fn look_report(self, usable: bool, at: Option<Point>) -> Option<Ev<Seq<char>>> {
        if self.sees(usable, at) && (self.last_pos is None || apart(
            self.last_pos->Some_0,
            at->Some_0,
        )) {
            Some(Ev::Moved { x: at->Some_0.x, y: at->Some_0.y })
        } else {
            None
        }
    }

    /// The window once another theme took it over.
    pub open spec fn taken_over(self) -> Ui {
        Ui { dragging: false, drag_last: None, grip: None, drag_events: 0, last_pos: None, ..self }
    }

    /// What to do to the window on a tick of the platform.
    pub open spec fn harden_task(self, os: Os, theme: bool, found: Option<usize>) -> HardenTask {
        let tick = next_count(self.win_tick);
        match os {
            Os::Windows => if theme {
                HardenTask::Windows(self.win.step_at(found, tick))
            } else {
                HardenTask::Nothing
            },
            Os::Linux => if !self.x11_flags_done && tick >= X11_FIRST_TICK && theme {
                HardenTask::SkipTaskbar
            } else {
                HardenTask::Nothing
            },
            Os::Macos => if self.mac_policy_ticks < MAC_POLICY_TICKS {
                HardenTask::AccessoryPolicy
            } else {
                HardenTask::Nothing
            },
        }
    }

    /// The window after a tick of the platform.
    pub open spec fn hardened(self, os: Os, theme: bool, found: Option<usize>) -> Ui {
        let ticked = Ui { win_tick: next_count(self.win_tick), ..self };
        match os {
            Os::Windows => if theme {
                Ui { win: self.win.after(found), ..ticked }
            } else {
                ticked
            },
            Os::Linux => Ui {
                x11_flags_done: self.x11_flags_done || self.harden_task(os, theme, found)
                    == HardenTask::SkipTaskbar,
                ..ticked
            },
            Os::Macos => if self.mac_policy_ticks < MAC_POLICY_TICKS {
                Ui { mac_policy_ticks: (self.mac_policy_ticks + 1) as u32, ..ticked }
            } else {
                ticked
            },
        }
    }

    /// The window once it was put somewhere.
    pub open spec fn put_at(self, target: Point) -> Ui {
        Ui { last_pos: Some(target), ..self }
    }

    /// The window after a command.
    pub open spec fn after_cmd(self, cmd: Cmd<Seq<char>>) -> Ui {
        match cmd {
            Cmd::Pos { x, y } => Ui { last_pos: Some(Point { x, y }), ..self },
            _ => self,
        }
    }

    pub fn new() -> (ui: Ui)
        ensures
            ui == Ui::initial(),
    {
        Ui {
            dragging: false,
            drag_last: None,
            grip: None,
            drag_events: 0,
            last_pos: None,
            win: WinHardening::new(),
            win_tick: 0,
            x11_flags_done: false,
            mac_policy_ticks: 0,
        }
    }

    /// Another theme took over the window.
    pub fn activate_theme(&mut self)
        ensures
            *final(self) == (Ui {
                dragging: false,
                drag_last: None,
                grip: None,
                drag_events: 0,
                last_pos: None,
                ..*old(self)
            }),
            *final(self) == old(self).taken_over(),
    {
        self.dragging = false;
        self.drag_last = None;
        self.grip = None;
        self.drag_events = 0;
        self.last_pos = None;
    }

    /// A button went down with the cursor at `cursor` on the screen and the pointer at
    /// `grip` in the window, as far as they are known.
    pub fn drag_start(&mut self, cursor: Option<Point>, grip: Option<Point>)
        ensures
            *final(self) == (Ui {
                dragging: true,
                drag_last: cursor,
                grip,
                drag_events: 0,
                ..*old(self)
            }),
            *final(self) == old(self).grabbed(cursor, grip),
    {
        self.drag_events = 0;
        self.dragging = true;
        self.drag_last = cursor;
        self.grip = grip;
    }

    /// Whether the target of a motion can be spoken of.
    pub fn drag_in_range(
        &self,
        usable: bool,
        cursor: Option<Point>,
        pointer: Option<Point>,
        at: Option<Point>,
    ) -> (fits: bool)
        ensures
            fits == self.drag_fits(usable, cursor, pointer, at),
    {
        if !self.dragging || cursor.is_some() && !usable {
            return true;
        }
        let (from, to) = if cursor.is_some() {
            (self.drag_last, cursor)
        } else {
            (self.grip, pointer)
        };
        match (from, to, at) {
            (Some(from), Some(to), Some(p)) => move_fits(p, from, to),
            _ => true,
        }
    }

    /// The pointer moved with the button down. `usable` says whether the window can
    /// be placed, `at` is where it is now; the result is where it is to go.
    pub fn drag_move(
        &mut self,
        usable: bool,
        cursor: Option<Point>,
        pointer: Option<Point>,
        at: Option<Point>,
    ) -> (target: Option<Point>)
        requires
            old(self).drag_fits(usable, cursor, pointer, at),
        ensures
            target == old(self).drag_target(usable, cursor, pointer, at),
            *final(self) == old(self).dragged(usable, cursor, pointer),
    {
        if !self.dragging {
            return None;
        }
        if self.drag_events < u32::MAX {
            self.drag_events = self.drag_events + 1;
        }
        if cursor.is_none() {
            let target = step(self.grip, pointer, at);
            if self.grip.is_none() {
                self.grip = pointer;
            }
            return target;
        }
        if !usable {
            return None;
        }
        let target = step(self.drag_last, cursor, at);
        self.drag_last = cursor;
        target
    }

    /// The button went up: after a real drag the position is reported, after a click
    /// nothing is.
    pub fn drag_end(&mut self, usable: bool, at: Option<Point>) -> (ev: Option<Ev>)
        ensures
            match ev {
                Some(e) => old(self).drop_report(usable, at) == Some(e@),
                None => old(self).drop_report(usable, at) is None,
            },
            *final(self) == old(self).released(usable, at),
            ev == if old(self).drops_at(usable, at) {
                Some(Ev::<String>::Moved { x: at->Some_0.x, y: at->Some_0.y })
            } else {
                None
            },
            *final(self) == (Ui {
                dragging: false,
                drag_last: None,
                grip: None,
                last_pos: if old(self).drops_at(usable, at) {
                    at
                } else {
                    old(self).last_pos
                },
                ..*old(self)
            }),
    {
        self.dragging = false;
        self.drag_last = None;
        self.grip = None;
        if self.drag_events >= DRAG_MOVES && usable {
            if let Some(p) = at {
                if !(p.x == 0 && p.y == 0) {
                    self.last_pos = Some(p);
                    return Some(Ev::Moved { x: p.x, y: p.y });
                }
            }
        }
        None
    }

    /// A look at the position from time to time, which finds moves that the system
    /// made.
    pub fn poll_position(&mut self, usable: bool, at: Option<Point>) -> (ev: Option<Ev>)
        ensures
            match ev {
                Some(e) => old(self).look_report(usable, at) == Some(e@),
                None => old(self).look_report(usable, at) is None,
            },
            *final(self) == old(self).looked(usable, at),
            ev == if old(self).sees(usable, at) && (old(self).last_pos is None || apart(
                old(self).last_pos->Some_0,
                at->Some_0,
            )) {
                Some(Ev::<String>::Moved { x: at->Some_0.x, y: at->Some_0.y })
            } else {
                None
            },
            *final(self) == (Ui {
                last_pos: if old(self).sees(usable, at) {
                    at
                } else {
                    old(self).last_pos
                },
                ..*old(self)
            }),
    {
        if !usable || self.dragging {
            return None;
        }
        match at {
            None => None,
            Some(p) => {
                if p.x == 0 && p.y == 0 {
                    return None;
                }
                let changed = match self.last_pos {
                    Some(q) => differ(q, p),
                    None => true,
                };
                self.last_pos = Some(p);
                if changed {
                    Some(Ev::Moved { x: p.x, y: p.y })
                } else {
                    None
                }
            },
        }
    }

    /// The window was put at `target`.
    pub fn placed(&mut self, target: Point)
        ensures
            *final(self) == old(self).put_at(target),
            *final(self) == (Ui { last_pos: Some(target), ..*old(self) }),
    {
        self.last_pos = Some(target);
    }

    /// What to do to the window on a tick of the platform, `theme` telling whether
    /// there is one and `found` being its handle on Windows.
    pub fn harden(&mut self, os: Os, theme: bool, found: Option<usize>) -> (task: HardenTask)
        ensures
            task == old(self).harden_task(os, theme, found),
            *final(self) == old(self).hardened(os, theme, found),
            ({
                let tick = next_count(old(self).win_tick);
                match os {
                    Os::Windows => {
                        &&& !theme ==> task == HardenTask::Nothing && *final(self) == (Ui {
                            win_tick: tick,
                            ..*old(self)
                        })
                        &&& theme ==> task == HardenTask::Windows(
                            match old(self).win.known(found) {
                                None => HardenStep::Nothing,
                                Some(hwnd) => if !old(self).win.applied {
                                    HardenStep::Apply { hwnd }
                                } else if tick % TOPMOST_TICKS == 0 {
                                    HardenStep::Refresh { hwnd }
                                } else {
                                    HardenStep::Nothing
                                },
                            },
                        ) && *final(self) == (Ui {
                            win_tick: tick,
                            win: WinHardening {
                                hwnd: old(self).win.known(found),
                                applied: old(self).win.applied || old(self).win.known(
                                    found,
                                ) is Some,
                            },
                            ..*old(self)
                        })
                    },
                    Os::Linux => {
                        let due = !old(self).x11_flags_done && tick >= X11_FIRST_TICK && theme;
                        &&& task == if due {
                            HardenTask::SkipTaskbar
                        } else {
                            HardenTask::Nothing
                        }
                        &&& *final(self) == (Ui {
                            win_tick: tick,
                            x11_flags_done: old(self).x11_flags_done || due,
                            ..*old(self)
                        })
                    },
                    Os::Macos => {
                        let due = old(self).mac_policy_ticks < MAC_POLICY_TICKS;
                        &&& task == if due {
                            HardenTask::AccessoryPolicy
                        } else {
                            HardenTask::Nothing
                        }
                        &&& *final(self) == (Ui {
                            win_tick: tick,
                            mac_policy_ticks: (old(self).mac_policy_ticks + if due {
                                1int
                            } else {
                                0int
                            }) as u32,
                            ..*old(self)
                        })
                    },
                }
            }),
    {
        if self.win_tick < u32::MAX {
            self.win_tick = self.win_tick + 1;
        }
        match os {
            Os::Windows => {
                if theme {
                    let mut win = self.win;
                    let step = windows_harden(&mut win, found, self.win_tick);
                    self.win = win;
                    HardenTask::Windows(step)
                } else {
                    HardenTask::Nothing
                }
            },
            Os::Linux => {
                if !self.x11_flags_done && self.win_tick >= X11_FIRST_TICK && theme {
                    self.x11_flags_done = true;
                    HardenTask::SkipTaskbar
                } else {
                    HardenTask::Nothing
                }
            },
            Os::Macos => {
                if self.mac_policy_ticks < MAC_POLICY_TICKS {
                    self.mac_policy_ticks = self.mac_policy_ticks + 1;
                    HardenTask::AccessoryPolicy
                } else {
                    HardenTask::Nothing
                }
            },
        }
    }
}

/// What to do to the window on a tick of the platform.
#[derive(Debug, Clone, Copy, PartialEq, Eq, Structural)]
pub enum HardenTask {
    Nothing,
    Windows(HardenStep),
    SkipTaskbar,
    AccessoryPolicy,
}

/// Where the window goes: to `pos` if that is given, else to the top right of the
/// screen, `margin` from its edges, if there is one.
pub open spec fn place(
    pos: Option<Point>,
    screen: Option<(i32, i32)>,
    width: u32,
    margin: i32,
) -> Option<Point> {
    match (pos, screen) {
        (Some(p), _) => Some(p),
        (None, Some((w, _h))) => if w > 0 {
            Some(
                Point {
                    x: (if w - width - margin > 0 {
                        w - width - margin
                    } else {
                        0
                    }) as i32,
                    y: margin,
                },
            )
        } else {
            None
        },
        (None, None) => None,
    }
}

/// Where the window goes. `width` is its own, `margin` its distance from the edges.
pub fn place_window(
    pos: Option<Point>,
    screen: Option<(i32, i32)>,
    width: u32,
    margin: i32,
) -> (target: Option<Point>)
    requires
        margin >= 0,
    ensures
        target == place(pos, screen, width, margin),
{
    match (pos, screen) {
        (Some(p), _) => Some(p),
        (None, Some((w, _h))) => {
            if w > 0 {
                let x: i64 = w as i64 - width as i64 - margin as i64;
                let x: i32 = if x > 0 {
                    x as i32
                } else {
                    0
                };
                Some(Point { x, y: margin })
            } else {
                None
            }
        },
        (None, None) => None,
    }
}

/// The position for a theme that takes over.
pub open spec fn carried(old_pos: Option<Point>, asked: Option<(i32, i32)>) -> Option<Point> {
    if old_pos is Some {
        old_pos
    } else if asked is Some {
        Some(Point { x: asked->Some_0.0, y: asked->Some_0.1 })
    } else {
        None
    }
}

/// The position for a theme that takes over: the one of the window before it, or
/// the one asked for at the start.
pub fn carried_position(old_pos: Option<Point>, asked: Option<(i32, i32)>) -> (pos: Option<Point>)
    ensures
        pos == carried(old_pos, asked),
        pos == match old_pos {
            Some(p) => Some(p),
            None => match asked {
                Some((x, y)) => Some(Point { x, y }),
                None => None,
            },
        },
{
    match old_pos {
        Some(p) => Some(p),
        None => match asked {
            Some((x, y)) => Some(Point { x, y }),
            None => None,
        },
    }
}

/// What is reported of a theme that was to take over the window.
pub open spec fn activated(theme: Seq<char>, shown: bool, reloaded: bool) -> Ev<Seq<char>> {
    if shown {
        Ev::Ready { theme, reloaded }
    } else {
        Ev::ThemeError { message: "cannot show window"@ }
    }
}

/// What is reported of a theme that was to take over the window: that it is there,
/// or that its window could not be shown.
pub fn activation(theme: &str, shown: bool, reloaded: bool) -> (ev: Ev)
    ensures
        ev@ == activated(theme@, shown, reloaded),
        ev@ == if shown {
            Ev::Ready { theme: theme@, reloaded }
        } else {
            Ev::ThemeError { message: "cannot show window"@ }
        },
{
    if shown {
        Ev::Ready { theme: theme.to_owned(), reloaded }
    } else {
        Ev::ThemeError { message: "cannot show window".to_owned() }
    }
}

/// The positions of a window that is dragged: `p` before the drag, with the cursor
/// at `from`, and then the cursor at each of `path`.
pub open spec fn drag_path(p: (int, int), from: Point, path: Seq<Point>) -> (int, int)
    decreases path.len(),
{
    if path.len() == 0 {
        p
    } else {
        let before = drag_path(p, from, path.drop_last());
        let last = if path.len() == 1 {
            from
        } else {
            path[path.len() - 2]
        };
        (before.0 + (path.last().x - last.x), before.1 + (path.last().y - last.y))
    }
}

/// A dragged window keeps to the cursor: wherever the cursor goes, the window is as
/// far from where it was as the cursor is.
pub proof fn law_drag_follows_the_cursor(p: (int, int), from: Point, path: Seq<Point>)
    requires
        path.len() > 0,
    ensures
        drag_path(p, from, path) == (
            p.0 + (path.last().x - from.x),
            p.1 + (path.last().y - from.y),
        ),
    decreases path.len(),
{
    if path.len() > 1 {
        law_drag_follows_the_cursor(p, from, path.drop_last());
        assert(path.drop_last().last() == path[path.len() - 2]);
    } else {
        assert(path.drop_last() =~= seq![]);
        assert(drag_path(p, from, seq![]) == p);
    }
}

/// One step of a drag is a step of the path: the window goes as far as the cursor
/// did, and the cursor is remembered for the next one.
pub proof fn law_drag_step_is_one_to_one(
    ui: Ui,
    from: Point,
    to: Point,
    pointer: Option<Point>,
    p: Point,
)
    requires
        ui.dragging,
        ui.drag_last == Some(from),
        on_grid(p, from, to),
    ensures
        ({
            let target = match ui.drag_target(true, Some(to), pointer, Some(p)) {
                Some(t) => t,
                None => p,
            };
            (target.x as int, target.y as int) == drag_path(
                (p.x as int, p.y as int),
                from,
                seq![to],
            )
        }),
        ui.dragged(true, Some(to), pointer).drag_last == Some(to),
{
    assert(seq![to].drop_last() =~= seq![]);
    assert(drag_path((p.x as int, p.y as int), from, seq![]) == (p.x as int, p.y as int));
}

/// Where the cursor cannot be found, the window goes where the pointer is again over
/// the place that it holds: the screen position of the pointer, which is the window's
/// position and the pointer's in it, is then that of the held place.
pub proof fn law_held_place_stays_under_the_pointer(
    ui: Ui,
    usable: bool,
    grip: Point,
    pointer: Point,
    p: Point,
)
    requires
        ui.dragging,
        ui.grip == Some(grip),
        on_grid(p, grip, pointer),
    ensures
        ({
            let target = match ui.drag_target(usable, None, Some(pointer), Some(p)) {
                Some(t) => t,
                None => p,
            };
            target.x + grip.x == p.x + pointer.x && target.y + grip.y == p.y + pointer.y
        }),
        ui.dragged(usable, None, Some(pointer)).grip == Some(grip),
{
}

/// The window after a row of motions, each with the cursor and the pointer.
pub open spec fn dragged_all(
    ui: Ui,
    path: Seq<(Option<Point>, Option<Point>)>,
    usable: bool,
) -> Ui
    decreases path.len(),
{
    if path.len() == 0 {
        ui
    } else {
        dragged_all(ui, path.drop_last(), usable).dragged(
            usable,
            path.last().0,
            path.last().1,
        )
    }
}

/// A press with fewer than two motions is a click: its end reports no position.
/// With two motions or more it is a drag.
pub proof fn law_clicks_are_no_drags(
    ui: Ui,
    path: Seq<(Option<Point>, Option<Point>)>,
    usable: bool,
    at: Option<Point>,
)
    requires
        ui.dragging,
        ui.drag_events == 0,
        path.len() < u32::MAX,
    ensures
        ({
            let end = dragged_all(ui, path, usable);
            &&& end.dragging
            &&& end.drag_events == path.len()
            &&& path.len() < DRAG_MOVES ==> !end.drops_at(usable, at)
            &&& path.len() >= DRAG_MOVES ==> end.drops_at(usable, at) == (usable && at is Some
                && !is_dummy(at->Some_0))
        }),
    decreases path.len(),
{
    if path.len() > 0 {
        law_clicks_are_no_drags(ui, path.drop_last(), usable, at);
    }
}

/// The parts of a theme that the user can press.
#[derive(Debug, Clone, Copy, PartialEq, Eq, Structural)]
pub enum Callback {
    MuteToggle,
    MonitoringToggle,
    MenuAction,
    HideWindow,
    DragStart,
    DragMove,
    DragEnd,
}

impl Callback {
    pub open spec fn label(self) -> Seq<char> {
        match self {
            Callback::MuteToggle => "mute-toggle"@,
            Callback::MonitoringToggle => "monitoring-toggle"@,
            Callback::MenuAction => "menu-action"@,
            Callback::HideWindow => "hide-window"@,
            Callback::DragStart => "drag-start"@,
            Callback::DragMove => "drag-move"@,
            Callback::DragEnd => "drag-end"@,
        }
    }

    /// The callback's name in a theme.
    pub fn name(self) -> (word: &'static str)
        ensures
            word@ == self.label(),
    {
        match self {
            Callback::MuteToggle => "mute-toggle",
            Callback::MonitoringToggle => "monitoring-toggle",
            Callback::MenuAction => "menu-action",
            Callback::HideWindow => "hide-window",
            Callback::DragStart => "drag-start",
            Callback::DragMove => "drag-move",
            Callback::DragEnd => "drag-end",
        }
    }
}

/// All callbacks, in the order in which they are attached.
pub open spec fn all_callbacks() -> Seq<Callback> {
    seq![
        Callback::MuteToggle,
        Callback::MonitoringToggle,
        Callback::MenuAction,
        Callback::HideWindow,
        Callback::DragStart,
        Callback::DragMove,
        Callback::DragEnd,
    ]
}

/// Whether a list of names holds one.
pub fn lists(names: &Vec<String>, name: &str) -> (yes: bool)
    ensures
        yes == texts(names@).contains(name@),
{
    let ghost all = texts(names@);
    let mut i: usize = 0;
    while i < names.len()
        invariant
            i <= names@.len(),
            all == texts(names@),
            forall|j: int| 0 <= j < i ==> all[j] != name@,
        decreases names@.len() - i,
    {
        if same_text(names[i].as_str(), name) {
            assert(all[i as int] == name@);
            return true;
        }
        i = i + 1;
    }
    false
}

/// The callbacks that a theme declares.
pub open spec fn wired(declared: Seq<Seq<char>>) -> Seq<Callback> {
    all_callbacks().filter(|c: Callback| declared.contains(c.label()))
}

/// The callbacks to attach to a theme: those that it declares.
pub fn attach_callbacks(declared: &Vec<String>) -> (found: Vec<Callback>)
    ensures
        found@ == wired(texts(declared@)),
        found@ == all_callbacks().filter(
            |c: Callback| texts(declared@).contains(c.label()),
        ),
{
    let ghost keep = |c: Callback| texts(declared@).contains(c.label());
    let mut all: Vec<Callback> = Vec::new();
    all.push(Callback::MuteToggle);
    all.push(Callback::MonitoringToggle);
    all.push(Callback::MenuAction);
    all.push(Callback::HideWindow);
    all.push(Callback::DragStart);
    all.push(Callback::DragMove);
    all.push(Callback::DragEnd);
    assert(all@ =~= all_callbacks());
    let mut wired: Vec<Callback> = Vec::new();
    let mut i: usize = 0;
    proof {
        reveal(Seq::filter);
        assert(all@.take(0).filter(keep) =~= seq![]);
    }
    while i < all.len()
        invariant
            i <= all@.len(),
            keep == (|c: Callback| texts(declared@).contains(c.label())),
            wired@ == all@.take(i as int).filter(keep),
        decreases all@.len() - i,
    {
        proof {
            reveal(Seq::filter);
            assert(all@.take(i + 1).drop_last() =~= all@.take(i as int));
        }
        if lists(declared, all[i].name()) {
            wired.push(all[i]);
        }
        i = i + 1;
    }
    assert(all@.take(i as int) =~= all@);
    wired
}

/// What pressing a part of the theme reports; drags report at their end only.
pub open spec fn pressed(callback: Callback, argument: Option<Seq<char>>) -> Option<Ev<Seq<char>>> {
    match callback {
        Callback::MuteToggle => Some(Ev::Mute),
        Callback::MonitoringToggle => Some(Ev::Monitoring),
        Callback::MenuAction => Some(
            Ev::Menu {
                action: match argument {
                    Some(a) => a,
                    None => seq![],
                },
            },
        ),
        Callback::HideWindow => Some(Ev::Hide),
        _ => None,
    }
}

/// What pressing a part of the theme reports. `argument` is the text that it came
/// with.
pub fn callback_event(callback: Callback, argument: Option<String>) -> (ev: Option<Ev>)
    ensures
        match ev {
            Some(e) => pressed(callback, opt_text(argument)) == Some(e@),
            None => pressed(callback, opt_text(argument)) is None,
        },
{
    match callback {
        Callback::MuteToggle => Some(Ev::Mute),
        Callback::MonitoringToggle => Some(Ev::Monitoring),
        Callback::MenuAction => {
            let action = match argument {
                Some(a) => a,
                None => {
                    let empty = String::new();
                    assert(empty@ =~= seq![]);
                    empty
                },
            };
            Some(Ev::Menu { action })
        },
        Callback::HideWindow => Some(Ev::Hide),
        _ => None,
    }
}

/// What a command asks of the window.
#[derive(Debug, PartialEq, Eq)]
pub enum Task<Text = String> {
    ShowState(StatePayload<Text>),
    LoadTheme { path: Text },
    SetVisible { show: bool },
    MoveTo(Point),
    PlaceDefault,
    ShowTranscript { text: Text, hold_ms: u64 },
    TakeSnapshot { path: Text },
    Leave,
}

impl View for Task {
    type V = Task<Seq<char>>;

    open spec fn view(&self) -> Task<Seq<char>> {
        match *self {
            Task::ShowState(p) => Task::ShowState(p@),
            Task::LoadTheme { path } => Task::LoadTheme { path: path@ },
            Task::SetVisible { show } => Task::SetVisible { show },
            Task::MoveTo(p) => Task::MoveTo(p),
            Task::PlaceDefault => Task::PlaceDefault,
            Task::ShowTranscript { text, hold_ms } => Task::ShowTranscript { text: text@, hold_ms },
            Task::TakeSnapshot { path } => Task::TakeSnapshot { path: path@ },
            Task::Leave => Task::Leave,
        }
    }
}

pub open spec fn task_of(cmd: Cmd<Seq<char>>) -> Task<Seq<char>> {
    match cmd {
        Cmd::State(p) => Task::ShowState(p),
        Cmd::Theme { path } => Task::LoadTheme { path },
        Cmd::Visible { show } => Task::SetVisible { show },
        Cmd::Pos { x, y } => Task::MoveTo(Point { x, y }),
        Cmd::PosDefault => Task::PlaceDefault,
        Cmd::Wdis { text, hold_ms } => Task::ShowTranscript { text, hold_ms },
        Cmd::Snapshot { path } => Task::TakeSnapshot { path },
        Cmd::Quit => Task::Leave,
    }
}

impl Ui {
    /// Takes a command; a position that is set is not reported as a move later.
    pub fn handle_cmd(&mut self, cmd: Cmd) -> (task: Task)
        ensures
            task@ == task_of(cmd@),
            *final(self) == old(self).after_cmd(cmd@),
            *final(self) == (Ui {
                last_pos: match cmd {
                    Cmd::Pos { x, y } => Some(Point { x, y }),
                    _ => old(self).last_pos,
                },
                ..*old(self)
            }),
    {
        match cmd {
            Cmd::State(p) => Task::ShowState(p),
            Cmd::Theme { path } => Task::LoadTheme { path },
            Cmd::Visible { show } => Task::SetVisible { show },
            Cmd::Pos { x, y } => {
                self.last_pos = Some(Point { x, y });
                Task::MoveTo(Point { x, y })
            },
            Cmd::PosDefault => Task::PlaceDefault,
            Cmd::Wdis { text, hold_ms } => Task::ShowTranscript { text, hold_ms },
            Cmd::Snapshot { path } => Task::TakeSnapshot { path },
            Cmd::Quit => Task::Leave,
        }
    }
}

/// How a snapshot went.
#[derive(Debug, PartialEq, Eq)]
pub enum SnapshotOutcome<Text = String> {
    Written { path: Text, width: u32, height: u32 },
    NotEncoded { error: Text },
    NotCreated { error: Text },
    Unavailable,
}

impl View for SnapshotOutcome {
    type V = SnapshotOutcome<Seq<char>>;

    open spec fn view(&self) -> SnapshotOutcome<Seq<char>> {
        match *self {
            SnapshotOutcome::Written { path, width, height } => SnapshotOutcome::Written {
                path: path@,
                width,
                height,
            },
            SnapshotOutcome::NotEncoded { error } => SnapshotOutcome::NotEncoded { error: error@ },
            SnapshotOutcome::NotCreated { error } => SnapshotOutcome::NotCreated { error: error@ },
            SnapshotOutcome::Unavailable => SnapshotOutcome::Unavailable,
        }
    }
}

pub open spec fn snapshot_message(o: SnapshotOutcome<Seq<char>>) -> Seq<char> {
    match o {
        SnapshotOutcome::Written { path, width, height } => "snapshot written: "@ + path + " ("@
            + decimal(width as nat) + "x"@ + decimal(height as nat) + ")"@,
        SnapshotOutcome::NotEncoded { error } => "snapshot encode failed: "@ + error,
        SnapshotOutcome::NotCreated { error } => "snapshot create failed: "@ + error,
        SnapshotOutcome::Unavailable => "snapshot unavailable"@,
    }
}

/// The event that tells how a snapshot went.
pub fn take_snapshot(outcome: &SnapshotOutcome) -> (ev: Ev)
    ensures
        ev@ == (Ev::Log { message: snapshot_message(outcome@) }),
{
    let message = match outcome {
        SnapshotOutcome::Written { path, width, height } => {
            let mut text = joined3("snapshot written: ", path.as_str(), " (");
            text.append(number(*width as u64).as_str());
            text.append("x");
            text.append(number(*height as u64).as_str());
            text.append(")");
            text
        },
        SnapshotOutcome::NotEncoded { error } => joined2(
            "snapshot encode failed: ",
            error.as_str(),
        ),
        SnapshotOutcome::NotCreated { error } => joined2(
            "snapshot create failed: ",
            error.as_str(),
        ),
        SnapshotOutcome::Unavailable => "snapshot unavailable".to_owned(),
    };
    Ev::Log { message }
}

} // verus!
