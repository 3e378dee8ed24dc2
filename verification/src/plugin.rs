//! The plugin's state, and the life of the window process.
//!
//! Times are readings of a monotonic clock in nanoseconds.

use vstd::prelude::*;

use crate::action::{acts, config, log_line, LOG_ERROR, LOG_INFO, LOG_WARN};
use crate::action::{log_error, log_info, log_warn, nothing, set_config, then_all, then_do, Action};
use crate::config::{Cfg, ParsedCfg, RawCfg};
use crate::session::{Session, SessionView};
use crate::text::{join, join_text, joined2, joined3, signed_decimal, signed_text, texts};

verus! {

/// Tag of the plugin's own interval timer.
pub open spec fn tick_payload() -> Seq<char> {
    "cfw"@
}

/// Least time between two writes of the status, of the window's state, and of the
/// window position.
pub const STATUS_WRITE: u64 = 1_000_000_000;

pub const POS_WRITE: u64 = 1_000_000_000;

/// Crashes in a row after which the window is not started again.
pub const MAX_RESTARTS: u32 = 6;

/// Longest wait before a restart.
pub const RESTART_CAP: u64 = 15_000_000_000;

/// A window that has run this long is healthy.
pub const HEALTHY_RESET: u64 = 60_000_000_000;

/// What the window process is doing.
#[derive(Debug, Clone, Copy, PartialEq, Eq, Structural)]
pub enum HelperState {
    Idle,
    Starting,
    Running,
    Hidden,
    Crashed,
    Missing,
    Stopped,
}

impl HelperState {
    pub open spec fn label(self) -> Seq<char> {
        match self {
            HelperState::Idle => "idle"@,
            HelperState::Starting => "starting"@,
            HelperState::Running => "running"@,
            HelperState::Hidden => "hidden"@,
            HelperState::Crashed => "crashed"@,
            HelperState::Missing => "missing"@,
            HelperState::Stopped => "stopped"@,
        }
    }

    /// The word that the configuration holds for the state.
    pub fn name(self) -> (word: &'static str)
        ensures
            word@ == self.label(),
    {
        match self {
            HelperState::Idle => "idle",
            HelperState::Starting => "starting",
            HelperState::Running => "running",
            HelperState::Hidden => "hidden",
            HelperState::Crashed => "crashed",
            HelperState::Missing => "missing",
            HelperState::Stopped => "stopped",
        }
    }
}

/// The plugin's state.
#[derive(Debug)]
pub struct Core {
    pub cfg: Cfg,
    /// Saved window position; without one the window goes to its default place.
    pub win_pos: Option<(i32, i32)>,
    pub interval_id: u64,
    pub tick: u64,
    pub session: Session<u64>,
    pub muted: bool,
    pub monitoring: bool,
    /// When the window was started, while it runs.
    pub helper: Option<u64>,
    /// Failures in a row.
    pub restarts: u32,
    pub next_retry: u64,
    pub gave_up: bool,
    pub crash_notified: bool,
    /// A position that is not written yet.
    pub pending_pos: Option<(i32, i32)>,
    pub last_pos_write: u64,
    pub last_status_json: String,
    pub last_status_write: u64,
    pub last_theme_list: Vec<String>,
    pub last_theme_err_notified: String,
    pub helper_state: HelperState,
    pub last_helper_state_written: Option<HelperState>,
    pub last_helper_state_write: u64,
}

/// The plugin's state, as contracts speak of it.
#[verifier::ext_equal]
pub struct CoreView {
    pub cfg: Cfg<Seq<char>>,
    pub win_pos: Option<(i32, i32)>,
    pub interval_id: u64,
    pub tick: u64,
    pub session: SessionView<u64>,
    pub muted: bool,
    pub monitoring: bool,
    pub helper: Option<u64>,
    pub restarts: u32,
    pub next_retry: u64,
    pub gave_up: bool,
    pub crash_notified: bool,
    pub pending_pos: Option<(i32, i32)>,
    pub last_pos_write: u64,
    pub last_status_json: Seq<char>,
    pub last_status_write: u64,
    pub last_theme_list: Seq<Seq<char>>,
    pub last_theme_err_notified: Seq<char>,
    pub helper_state: HelperState,
    pub last_helper_state_written: Option<HelperState>,
    pub last_helper_state_write: u64,
}

/// A list of actions, as contracts speak of it.
pub type Acts = Seq<Action<Seq<char>>>;

impl View for Core {
    type V = CoreView;

    open spec fn view(&self) -> CoreView {
        CoreView {
            cfg: self.cfg@,
            win_pos: self.win_pos,
            interval_id: self.interval_id,
            tick: self.tick,
            session: self.session@,
            muted: self.muted,
            monitoring: self.monitoring,
            helper: self.helper,
            restarts: self.restarts,
            next_retry: self.next_retry,
            gave_up: self.gave_up,
            crash_notified: self.crash_notified,
            pending_pos: self.pending_pos,
            last_pos_write: self.last_pos_write,
            last_status_json: self.last_status_json@,
            last_status_write: self.last_status_write,
            last_theme_list: texts(self.last_theme_list@),
            last_theme_err_notified: self.last_theme_err_notified@,
            helper_state: self.helper_state,
            last_helper_state_written: self.last_helper_state_written,
            last_helper_state_write: self.last_helper_state_write,
        }
    }
}

/// Time from `earlier` to `now`; none when the clock did not advance.
pub open spec fn since(now: u64, earlier: u64) -> u64 {
    if now >= earlier {
        (now - earlier) as u64
    } else {
        0
    }
}

/// Time from `earlier` to `now`; none when the clock did not advance.
pub fn elapsed(now: u64, earlier: u64) -> (time: u64)
    ensures
        time == since(now, earlier),
{
    if now >= earlier {
        now - earlier
    } else {
        0
    }
}

/// A clock reading from which the longest wait does not overflow.
pub open spec fn usable(now: u64) -> bool {
    now <= u64::MAX - RESTART_CAP
}

/// Wait before the restart after a failure that `n` failures in a row came before:
/// half a second times two to the `n`, and at most [`RESTART_CAP`].
pub open spec fn backoff(n: u32) -> int {
    let wait = 500_000_000 * vstd::arithmetic::power2::pow2(
        if n < 5 {
            n as nat
        } else {
            5
        },
    );
    if wait < RESTART_CAP {
        wait as int
    } else {
        RESTART_CAP as int
    }
}

fn backoff_time(n: u32) -> (wait: u64)
    ensures
        wait == backoff(n),
        wait <= RESTART_CAP,
{
    proof {
        vstd::arithmetic::power2::lemma2_to64();
    }
    match n {
        0 => 500_000_000,
        1 => 1_000_000_000,
        2 => 2_000_000_000,
        3 => 4_000_000_000,
        4 => 8_000_000_000,
        _ => RESTART_CAP,
    }
}

/// The next number, as far as there is one.
pub open spec fn next_count(n: u32) -> u32 {
    if n < u32::MAX {
        (n + 1) as u32
    } else {
        n
    }
}

impl CoreView {
    /// What every operation keeps.
    pub open spec fn valid(self) -> bool {
        self.cfg.valid() && self.session.valid()
    }

    /// The state at the start.
    pub open spec fn fresh(now: u64) -> CoreView {
        CoreView {
            cfg: Cfg::initial(),
            win_pos: None,
            interval_id: 0,
            tick: 0,
            session: SessionView::fresh(),
            muted: false,
            monitoring: false,
            helper: None,
            restarts: 0,
            next_retry: now,
            gave_up: false,
            crash_notified: false,
            pending_pos: None,
            last_pos_write: now,
            last_status_json: seq![],
            last_status_write: (now - STATUS_WRITE) as u64,
            last_theme_list: seq![],
            last_theme_err_notified: seq![],
            helper_state: HelperState::Idle,
            last_helper_state_written: None,
            last_helper_state_write: (now - STATUS_WRITE) as u64,
        }
    }

    /// The settings and the position as `p` gives them.
    pub open spec fn loaded(self, p: ParsedCfg<Seq<char>>) -> CoreView {
        CoreView { cfg: self.cfg.adopting(p), win_pos: p.position(), ..self }
    }

    /// Starting the window with the chosen theme at the saved position.
    pub open spec fn spawn_act(self) -> Action<Seq<char>> {
        match self.win_pos {
            Some((x, y)) => Action::SpawnHelper { theme: self.cfg.theme, x, y },
            None => Action::SpawnHelper { theme: self.cfg.theme, x: -1i32, y: -1i32 },
        }
    }

    /// Showing the chosen theme: in the running window, or in a new one when
    /// there is to be one.
    pub open spec fn reload_acts(self) -> Acts {
        if self.helper is Some {
            seq![Action::SendTheme { theme: self.cfg.theme }]
        } else if self.cfg.visible {
            seq![self.spawn_act()]
        } else {
            seq![]
        }
    }

    /// The state after the window was started.
    pub open spec fn after_spawn(self, now: u64) -> CoreView {
        CoreView { helper: Some(now), helper_state: HelperState::Starting, ..self }
    }

    /// The state after one more failure: the next try is planned, or no more
    /// are made.
    pub open spec fn after_failure(self, now: u64) -> CoreView {
        let n = next_count(self.restarts);
        if n >= MAX_RESTARTS {
            CoreView {
                restarts: n,
                gave_up: true,
                crash_notified: true,
                helper_state: HelperState::Crashed,
                ..self
            }
        } else {
            CoreView {
                restarts: n,
                next_retry: (now + backoff((n - 1) as u32)) as u64,
                helper_state: HelperState::Crashed,
                ..self
            }
        }
    }

    /// What one more failure brings about: when it is the last try, and the user
    /// was not told yet, they are.
    pub open spec fn failure_acts(self) -> Acts {
        if next_count(self.restarts) >= MAX_RESTARTS && !self.crash_notified {
            seq![
                log_line(LOG_ERROR, "helper crashed 6× — giving up. stderr tail: "@),
                Action::Notify {
                    title: "悬浮窗 FloatingWindow"@,
                    body: "悬浮窗进程反复崩溃，已停止重试。可在插件面板中重启或更换主题。"@,
                },
            ]
        } else {
            seq![]
        }
    }

    /// The state once a look at the window's process was taken: a death is a
    /// failure where the window is to be seen, and a long run clears the count.
    pub open spec fn checked(self, dead: bool, now: u64) -> CoreView {
        match self.helper {
            Some(started) => if dead {
                let gone = CoreView {
                    helper: None,
                    restarts: if since(now, started) >= HEALTHY_RESET {
                        0
                    } else {
                        self.restarts
                    },
                    ..self
                };
                if self.cfg.visible {
                    gone.after_failure(now)
                } else {
                    CoreView { helper_state: HelperState::Hidden, ..gone }
                }
            } else if since(now, started) >= HEALTHY_RESET && self.restarts > 0 {
                CoreView { restarts: 0, gave_up: false, ..self }
            } else {
                self
            },
            None => self,
        }
    }

    /// What is to be done about a death: it is logged, with how long the process
    /// ran and what it last wrote.
    pub open spec fn check_acts(
        self,
        dead: bool,
        ran: Seq<char>,
        tail: Seq<Seq<char>>,
        now: u64,
    ) -> Acts {
        match self.helper {
            Some(started) if dead => {
                let report = log_line(
                    LOG_WARN,
                    "helper exited after "@ + ran + "s; stderr tail: "@ + join_text(tail, " | "@),
                );
                let gone = CoreView {
                    restarts: if since(now, started) >= HEALTHY_RESET {
                        0
                    } else {
                        self.restarts
                    },
                    ..self
                };
                if self.cfg.visible {
                    seq![report] + gone.failure_acts()
                } else {
                    seq![report]
                }
            },
            _ => seq![],
        }
    }

    /// Whether the window is to be started now.
    pub open spec fn wants_spawn(self, now: u64) -> bool {
        self.cfg.visible && self.helper is None && !self.gave_up && now >= self.next_retry
    }

    pub open spec fn respawn_acts(self, now: u64) -> Acts {
        if self.wants_spawn(now) {
            seq![self.spawn_act()]
        } else {
            seq![]
        }
    }

    /// Whether the pending position is to be written now.
    pub open spec fn flushes(self, force: bool, now: u64) -> bool {
        self.pending_pos is Some && (force || since(now, self.last_pos_write) >= POS_WRITE)
    }

    pub open spec fn flushed(self, force: bool, now: u64) -> CoreView {
        if self.flushes(force, now) {
            CoreView {
                last_pos_write: now,
                pending_pos: None,
                win_pos: self.pending_pos,
                ..self
            }
        } else {
            self
        }
    }

    pub open spec fn flush_acts(self, force: bool, now: u64) -> Acts {
        if self.flushes(force, now) {
            let (x, y) = self.pending_pos->Some_0;
            seq![
                config("windowX"@, signed_decimal(x as int)),
                config("windowY"@, signed_decimal(y as int)),
            ]
        } else {
            seq![]
        }
    }

    pub open spec fn clear_acts(self) -> Acts {
        if self.interval_id != 0 {
            seq![Action::ClearInterval { id: self.interval_id }]
        } else {
            seq![]
        }
    }

    /// The end: the position is written and the window leaves.
    pub open spec fn shut(self, now: u64) -> CoreView {
        CoreView {
            interval_id: 0,
            helper: None,
            helper_state: HelperState::Stopped,
            ..self.flushed(true, now)
        }
    }

    pub open spec fn shut_acts(self, now: u64) -> Acts {
        self.clear_acts() + self.flush_acts(true, now) + self.stop_acts()
    }

    pub open spec fn stop_acts(self) -> Acts {
        if self.helper is Some {
            seq![Action::StopHelper]
        } else {
            seq![]
        }
    }

    /// The state without a window.
    pub open spec fn without_helper(self) -> CoreView {
        CoreView { helper: None, ..self }
    }

    /// The state with the host's timer.
    pub open spec fn with_interval(self, id: u64) -> CoreView {
        CoreView { interval_id: id, ..self }
    }

    /// What a failed start brings about.
    pub open spec fn spawn_failure_acts(self, error: Seq<char>) -> Acts {
        seq![log_line(LOG_ERROR, "helper spawn failed: "@ + error)] + self.failure_acts()
    }
}

/// What a start brings about.
pub open spec fn spawned_acts(path: Seq<char>) -> Acts {
    seq![log_line(LOG_INFO, "helper spawned (theme "@ + path + ")"@)]
}

impl Core {
    pub fn new(now: u64) -> (core: Core)
        requires
            now >= STATUS_WRITE,
        ensures
            core@ == CoreView::fresh(now),
            core@.valid(),
    {
        let core = Core {
            cfg: Cfg::new(),
            win_pos: None,
            interval_id: 0,
            tick: 0,
            session: Session::start(),
            muted: false,
            monitoring: false,
            helper: None,
            restarts: 0,
            next_retry: now,
            gave_up: false,
            crash_notified: false,
            pending_pos: None,
            last_pos_write: now,
            last_status_json: String::new(),
            last_status_write: now - STATUS_WRITE,
            last_theme_list: Vec::new(),
            last_theme_err_notified: String::new(),
            helper_state: HelperState::Idle,
            last_helper_state_written: None,
            last_helper_state_write: now - STATUS_WRITE,
        };
        assert(core@ =~= CoreView::fresh(now));
        core
    }

    /// Reads the settings anew.
    pub fn load_cfg(&mut self, raw: &RawCfg)
        ensures
            final(self)@ == old(self)@.loaded(raw@.parsed()),
            old(self)@.valid() ==> final(self)@.valid(),
    {
        let p = raw.parse();
        self.adopt(&p);
    }

    /// Takes over settings that were read.
    pub fn adopt(&mut self, p: &ParsedCfg)
        ensures
            final(self)@ == old(self)@.loaded(p@),
            old(self)@.valid() ==> final(self)@.valid(),
    {
        self.cfg.adopt(p);
        self.win_pos = p.saved_position();
        assert(self@ =~= old(self)@.loaded(p@));
    }

    /// The action that starts the window.
    pub fn spawn_helper(&self) -> (action: Action)
        ensures
            action@ == self@.spawn_act(),
    {
        let (x, y) = match self.win_pos {
            Some(p) => p,
            None => (-1, -1),
        };
        Action::SpawnHelper { theme: self.cfg.theme.clone(), x, y }
    }

    /// The actions that show the chosen theme.
    pub fn reload_theme(&self) -> (todo: Vec<Action>)
        ensures
            acts(todo@) == self@.reload_acts(),
    {
        let mut todo = nothing();
        if self.helper.is_some() {
            then_do(&mut todo, Action::SendTheme { theme: self.cfg.theme.clone() });
        } else if self.cfg.visible {
            then_do(&mut todo, self.spawn_helper());
        }
        assert(acts(todo@) =~= self@.reload_acts());
        todo
    }

    /// The window was started with the theme at `path`.
    pub fn spawned(&mut self, path: &str, now: u64) -> (todo: Vec<Action>)
        ensures
            final(self)@ == old(self)@.after_spawn(now),
            acts(todo@) == spawned_acts(path@),
            acts(todo@) == seq![log_line(LOG_INFO, "helper spawned (theme "@ + path@ + ")"@)],
            old(self)@.valid() ==> final(self)@.valid(),
    {
        self.helper = Some(now);
        self.helper_state = HelperState::Starting;
        let mut todo = nothing();
        then_do(&mut todo, log_info(joined3("helper spawned (theme ", path, ")")));
        assert(self@ =~= old(self)@.after_spawn(now));
        assert(acts(todo@) =~= seq![
            log_line(LOG_INFO, "helper spawned (theme "@ + path@ + ")"@),
        ]);
        todo
    }

    /// The window could not be started.
    pub fn spawn_failed(&mut self, error: &str, now: u64) -> (todo: Vec<Action>)
        requires
            usable(now),
        ensures
            final(self)@ == old(self)@.after_failure(now),
            acts(todo@) == old(self)@.spawn_failure_acts(error@),
            acts(todo@) == seq![log_line(LOG_ERROR, "helper spawn failed: "@ + error@)]
                + old(self)@.failure_acts(),
            old(self)@.valid() ==> final(self)@.valid(),
    {
        let mut todo = nothing();
        then_do(&mut todo, log_error(joined2("helper spawn failed: ", error)));
        self.helper_state = HelperState::Missing;
        let more = self.schedule_retry(now);
        then_all(&mut todo, more);
        assert(self@ =~= old(self)@.after_failure(now));
        assert(acts(todo@) =~= seq![log_line(LOG_ERROR, "helper spawn failed: "@ + error@)]
            + old(self)@.failure_acts());
        todo
    }

    /// Counts a failure, and plans the next try or gives up.
    pub fn schedule_retry(&mut self, now: u64) -> (todo: Vec<Action>)
        requires
            usable(now),
        ensures
            final(self)@ == old(self)@.after_failure(now),
            acts(todo@) == old(self)@.failure_acts(),
            old(self)@.valid() ==> final(self)@.valid(),
    {
        let mut todo = nothing();
        if self.restarts < u32::MAX {
            self.restarts = self.restarts + 1;
        }
        if self.restarts >= MAX_RESTARTS {
            self.gave_up = true;
            if !self.crash_notified {
                self.crash_notified = true;
                then_do(
                    &mut todo,
                    log_error("helper crashed 6× — giving up. stderr tail: ".to_owned()),
                );
                then_do(
                    &mut todo,
                    Action::Notify {
                        title: "悬浮窗 FloatingWindow".to_owned(),
                        body: "悬浮窗进程反复崩溃，已停止重试。可在插件面板中重启或更换主题。".to_owned(),
                    },
                );
            }
        } else {
            self.next_retry = now + backoff_time(self.restarts - 1);
        }
        self.helper_state = HelperState::Crashed;
        assert(self@ =~= old(self)@.after_failure(now));
        assert(acts(todo@) =~= old(self)@.failure_acts());
        todo
    }

    /// Looks after the window's process. `dead` says that it has ended, `ran` is
    /// how many seconds it ran and `tail` what it last wrote to its error output.
    pub fn supervise_helper(&mut self, dead: bool, ran: &str, tail: &Vec<String>, now: u64) -> (todo:
        Vec<Action>)
        requires
            usable(now),
        ensures
            final(self)@ == old(self)@.checked(dead, now),
            acts(todo@) == old(self)@.check_acts(dead, ran@, texts(tail@), now)
                + final(self)@.respawn_acts(now),
            old(self)@.valid() ==> final(self)@.valid(),
    {
        let mut todo = nothing();
        if let Some(started) = self.helper {
            let healthy = elapsed(now, started) >= HEALTHY_RESET;
            if dead {
                let head = joined3("helper exited after ", ran, "s; stderr tail: ");
                let lines = join(tail, " | ");
                then_do(&mut todo, log_warn(joined2(head.as_str(), lines.as_str())));
                self.helper = None;
                if healthy {
                    self.restarts = 0;
                }
                if self.cfg.visible {
                    let ghost before = self@;
                    let more = self.schedule_retry(now);
                    then_all(&mut todo, more);
                    assert(before.failure_acts() == (CoreView {
                        restarts: before.restarts,
                        ..old(self)@
                    }).failure_acts());
                } else {
                    self.helper_state = HelperState::Hidden;
                }
            } else if healthy && self.restarts > 0 {
                self.restarts = 0;
                self.gave_up = false;
            }
        }
        assert(self@ =~= old(self)@.checked(dead, now));
        assert(acts(todo@) =~= old(self)@.check_acts(dead, ran@, texts(tail@), now));
        if self.cfg.visible && self.helper.is_none() && !self.gave_up && now >= self.next_retry {
            then_do(&mut todo, self.spawn_helper());
        }
        assert(acts(todo@) =~= old(self)@.check_acts(dead, ran@, texts(tail@), now)
            + self@.respawn_acts(now));
        todo
    }

    /// Writes the pending window position, at most once per [`POS_WRITE`] unless
    /// `force` is set.
    pub fn flush_pos(&mut self, force: bool, now: u64) -> (todo: Vec<Action>)
        ensures
            final(self)@ == old(self)@.flushed(force, now),
            acts(todo@) == old(self)@.flush_acts(force, now),
            old(self)@.valid() ==> final(self)@.valid(),
    {
        let mut todo = nothing();
        if let Some((x, y)) = self.pending_pos {
            if force || elapsed(now, self.last_pos_write) >= POS_WRITE {
                self.last_pos_write = now;
                self.pending_pos = None;
                self.win_pos = Some((x, y));
                then_do(&mut todo, set_config("windowX", signed_text(x).as_str()));
                then_do(&mut todo, set_config("windowY", signed_text(y).as_str()));
            }
        }
        assert(self@ =~= old(self)@.flushed(force, now));
        assert(acts(todo@) =~= old(self)@.flush_acts(force, now));
        todo
    }

    /// The action that stops the timer, where one runs.
    pub fn clear_interval(&self) -> (todo: Vec<Action>)
        ensures
            acts(todo@) == self@.clear_acts(),
    {
        let mut todo = nothing();
        if self.interval_id != 0 {
            then_do(&mut todo, Action::ClearInterval { id: self.interval_id });
        }
        assert(acts(todo@) =~= self@.clear_acts());
        todo
    }

    /// Lets the window go.
    pub fn kill_helper(&mut self) -> (todo: Vec<Action>)
        ensures
            final(self)@ == old(self)@.without_helper(),
            final(self)@ == (CoreView { helper: None, ..old(self)@ }),
            acts(todo@) == old(self)@.stop_acts(),
            old(self)@.valid() ==> final(self)@.valid(),
    {
        let mut todo = nothing();
        if self.helper.is_some() {
            self.helper = None;
            then_do(&mut todo, Action::StopHelper);
        }
        assert(self@ =~= (CoreView { helper: None, ..old(self)@ }));
        assert(acts(todo@) =~= old(self)@.stop_acts());
        todo
    }

    /// Ends the plugin.
    pub fn shutdown(&mut self, now: u64) -> (todo: Vec<Action>)
        ensures
            final(self)@ == old(self)@.shut(now),
            acts(todo@) == old(self)@.shut_acts(now),
            old(self)@.valid() ==> final(self)@.valid(),
    {
        let mut todo = self.clear_interval();
        self.interval_id = 0;
        let more = self.flush_pos(true, now);
        then_all(&mut todo, more);
        let more = self.kill_helper();
        then_all(&mut todo, more);
        self.helper_state = HelperState::Stopped;
        assert(self@ =~= old(self)@.shut(now));
        assert(acts(todo@) =~= old(self)@.shut_acts(now));
        todo
    }

    /// The host has started the timer.
    pub fn interval_set(&mut self, id: u64)
        ensures
            final(self)@ == old(self)@.with_interval(id),
            final(self)@ == (CoreView { interval_id: id, ..old(self)@ }),
            old(self)@.valid() ==> final(self)@.valid(),
    {
        self.interval_id = id;
        assert(self@ =~= (CoreView { interval_id: id, ..old(self)@ }));
    }
}

} // verus!
