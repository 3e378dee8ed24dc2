//! The plugin's start and what it does on every tick.

use vstd::prelude::*;

use crate::abi::mpl_result_t;
use crate::action::{acts, config, log_line, LOG_ERROR, LOG_INFO};
use crate::action::{log_error, log_info, nothing, set_config, then_all, then_do, Action};
use crate::config::{ParsedCfg, RawCfg};
use crate::json::{json_quote, quoted};
use crate::plugin::{tick_payload, STATUS_WRITE};
use crate::plugin::{Acts, Core, CoreView, HelperState};
use crate::protocol::Cmd;
use crate::text::{bool_text, bool_word, decimal, joined2, joined3, number, opt_text, same_text};

verus! {

/// Ticks between two looks at the settings, and at the theme directory.
pub const CFG_POLL_TICKS: u64 = 10;

pub const DIR_SCAN_TICKS: u64 = 50;

/// One thing that is done on a tick.
#[derive(Debug, Clone, Copy, PartialEq, Eq, Structural)]
pub enum Stage {
    /// Look after the window's process.
    Supervise,
    /// Handle the window's events.
    Events,
    /// Show the audio state.
    Audio,
    /// Read the settings.
    PollConfig,
    /// List the themes.
    ScanThemes,
    /// Write the window position.
    FlushPosition,
}

/// The order of work on the tick of that number.
pub open spec fn stages(tick: u64) -> Seq<Stage> {
    seq![Stage::Supervise, Stage::Events, Stage::Audio] + (if tick % CFG_POLL_TICKS == 0 {
        seq![Stage::PollConfig]
    } else {
        seq![]
    }) + (if tick % DIR_SCAN_TICKS == 0 {
        seq![Stage::ScanThemes]
    } else {
        seq![]
    }) + seq![Stage::FlushPosition]
}

pub open spec fn next_tick(tick: u64) -> u64 {
    if tick < u64::MAX {
        (tick + 1) as u64
    } else {
        tick
    }
}

/// What the settings were before they were read anew.
#[derive(Debug, Clone, Copy, PartialEq, Eq, Structural)]
pub struct Before {
    pub visible: bool,
    pub had_pos: bool,
}

impl CoreView {
    pub open spec fn rearm_acts(self) -> Acts {
        self.clear_acts() + seq![
            Action::SetInterval { ms: self.cfg.update_ms, payload: tick_payload() },
            log_line(LOG_INFO, "tick interval now "@ + decimal(self.cfg.update_ms as nat) + "ms"@),
        ]
    }

    /// What new settings bring about at once: a new timer, and a new theme.
    pub open spec fn poll_acts(self, p: ParsedCfg<Seq<char>>) -> Acts {
        let after = self.loaded(p);
        (if after.cfg.update_ms != self.cfg.update_ms {
            after.rearm_acts()
        } else {
            seq![]
        }) + (if after.cfg.theme != self.cfg.theme {
            after.reload_acts()
        } else {
            seq![]
        })
    }

    /// The state once it was looked whether the window is to be seen.
    pub open spec fn settled(self, before: Before, now: u64) -> CoreView {
        if self.cfg.visible && !before.visible {
            CoreView { gave_up: false, restarts: 0, next_retry: now, ..self }
        } else if !self.cfg.visible && before.visible && self.helper is Some {
            CoreView { helper_state: HelperState::Hidden, ..self }
        } else {
            self
        }
    }

    pub open spec fn settle_acts(self, before: Before) -> Acts {
        (if self.cfg.visible && !before.visible && self.helper is None {
            seq![self.spawn_act()]
        } else if !self.cfg.visible && before.visible {
            self.send_acts(Cmd::Visible { show: false })
        } else {
            seq![]
        }) + (if self.win_pos is None && before.had_pos {
            self.send_acts(Cmd::PosDefault)
        } else {
            seq![]
        })
    }

    /// The state after the start, before the timer runs.
    pub open spec fn started(
        now: u64,
        p: ParsedCfg<Seq<char>>,
        monitoring: Option<bool>,
        muted: Option<bool>,
    ) -> CoreView {
        let read = CoreView::fresh(now).loaded(p);
        CoreView {
            monitoring: monitoring == Some(true),
            muted: muted == Some(true),
            helper_state: if read.cfg.visible {
                HelperState::Idle
            } else {
                HelperState::Hidden
            },
            ..read
        }
    }

    pub open spec fn start_acts(self, host: Option<Seq<char>>, themes_dir: Seq<char>) -> Acts {
        (match host {
            Some(info) => seq![log_line(LOG_INFO, "initializing against host "@ + info)],
            None => seq![],
        }) + seq![
            Action::ListThemes { force: true },
            config("themesDir"@, json_quote(themes_dir)),
            Action::SetPanelIcon { panel: "settings"@, icon: "🪟"@ },
        ] + (if self.cfg.visible {
            seq![self.spawn_act()]
        } else {
            seq![]
        }) + seq![Action::SetInterval { ms: self.cfg.update_ms, payload: tick_payload() }]
    }

    pub open spec fn ready_text(self) -> Seq<char> {
        "ready (theme "@ + self.cfg.theme + ", tick "@ + decimal(self.cfg.update_ms as nat)
            + "ms, visible "@ + bool_text(self.cfg.visible) + ")"@
    }
}

/// Whether the host named a directory to work in.
pub open spec fn usable_dir(dir: Option<Seq<char>>) -> bool {
    dir matches Some(d) && d.len() > 0
}

/// What to log when there is no directory to work in.
pub open spec fn homeless_act() -> Action<Seq<char>> {
    log_line(LOG_ERROR, "plugin_dir unavailable — cannot locate themes"@)
}

/// The plugin's directory; without one the plugin cannot start.
pub fn plugin_home(dir: Option<String>) -> (home: Result<String, (mpl_result_t, Action)>)
    ensures
        home is Ok == usable_dir(opt_text(dir)),
        home matches Ok(d) ==> Some(d) == dir,
        home matches Err((code, action)) ==> code == mpl_result_t::MPL_ERR_RUNTIME && action@
            == log_line(LOG_ERROR, "plugin_dir unavailable — cannot locate themes"@) && action@
            == homeless_act(),
{
    if let Some(d) = dir {
        if !d.as_str().is_empty() {
            return Ok(d);
        }
    }
    Err(
        (
            mpl_result_t::MPL_ERR_RUNTIME,
            log_error("plugin_dir unavailable — cannot locate themes".to_owned()),
        ),
    )
}

impl CoreView {
    /// The state once it is known whether there is a timer.
    pub open spec fn finished(self, now: u64) -> CoreView {
        if self.interval_id == 0 {
            self.shut(now)
        } else {
            self
        }
    }

    pub open spec fn finish_acts(self, now: u64) -> Acts {
        if self.interval_id == 0 {
            seq![log_line(LOG_ERROR, "set_interval unavailable — plugin cannot run"@)]
                + self.shut_acts(now)
        } else {
            seq![log_line(LOG_INFO, self.ready_text())]
        }
    }

    pub open spec fn finish_code(self) -> mpl_result_t {
        if self.interval_id == 0 {
            mpl_result_t::MPL_ERR_RUNTIME
        } else {
            mpl_result_t::MPL_OK
        }
    }

    /// The state once a tick was counted.
    pub open spec fn ticked(self) -> CoreView {
        CoreView { tick: next_tick(self.tick), ..self }
    }

    /// What the settings were, as far as it matters when they are read anew.
    pub open spec fn noted_before(self) -> Before {
        Before { visible: self.cfg.visible, had_pos: self.win_pos is Some }
    }
}

impl Core {
    /// Starts the plugin. `host` is what the host says of itself, `monitoring` and
    /// `muted` what it says of those switches.
    pub fn start(
        now: u64,
        raw: &RawCfg,
        host: &Option<String>,
        monitoring: Option<bool>,
        muted: Option<bool>,
        themes_dir: &str,
    ) -> (started: (Core, Vec<Action>))
        requires
            now >= STATUS_WRITE,
        ensures
            started.0@ == CoreView::started(now, raw@.parsed(), monitoring, muted),
            acts(started.1@) == started.0@.start_acts(opt_text(*host), themes_dir@),
            started.0@.valid(),
    {
        let p = raw.parse();
        Core::start_with(now, &p, host, monitoring, muted, themes_dir)
    }

    /// Starts the plugin with settings that were read.
    pub fn start_with(
        now: u64,
        p: &ParsedCfg,
        host: &Option<String>,
        monitoring: Option<bool>,
        muted: Option<bool>,
        themes_dir: &str,
    ) -> (started: (Core, Vec<Action>))
        requires
            now >= STATUS_WRITE,
        ensures
            started.0@ == CoreView::started(now, p@, monitoring, muted),
            acts(started.1@) == started.0@.start_acts(opt_text(*host), themes_dir@),
            started.0@.valid(),
    {
        let mut core = Core::new(now);
        core.adopt(p);
        let mut todo = nothing();
        if let Some(info) = host {
            then_do(&mut todo, log_info(joined2("initializing against host ", info.as_str())));
        }
        core.monitoring = match monitoring {
            Some(on) => on,
            None => false,
        };
        core.muted = match muted {
            Some(on) => on,
            None => false,
        };
        then_do(&mut todo, Action::ListThemes { force: true });
        then_do(&mut todo, set_config("themesDir", quoted(themes_dir).as_str()));
        then_do(
            &mut todo,
            Action::SetPanelIcon { panel: "settings".to_owned(), icon: "🪟".to_owned() },
        );
        if core.cfg.visible {
            then_do(&mut todo, core.spawn_helper());
        } else {
            core.helper_state = HelperState::Hidden;
        }
        then_do(
            &mut todo,
            Action::SetInterval { ms: core.cfg.update_ms, payload: "cfw".to_owned() },
        );
        assert(core@ =~= CoreView::started(now, p@, monitoring, muted));
        assert(acts(todo@) =~= core@.start_acts(opt_text(*host), themes_dir@));
        (core, todo)
    }

    /// Ends the start, once the host has answered the request for a timer. Without
    /// a timer the plugin cannot run.
    pub fn finish_start(&mut self, now: u64) -> (done: (mpl_result_t, Vec<Action>))
        ensures
            final(self)@ == old(self)@.finished(now),
            acts(done.1@) == old(self)@.finish_acts(now),
            done.0 == old(self)@.finish_code(),
            old(self)@.interval_id == 0 ==> {
                &&& done.0 == mpl_result_t::MPL_ERR_RUNTIME
                &&& final(self)@ == old(self)@.shut(now)
                &&& acts(done.1@) == seq![
                    log_line(LOG_ERROR, "set_interval unavailable — plugin cannot run"@),
                ] + old(self)@.shut_acts(now)
            },
            old(self)@.interval_id != 0 ==> {
                &&& done.0 == mpl_result_t::MPL_OK
                &&& final(self)@ == old(self)@
                &&& acts(done.1@) == seq![log_line(LOG_INFO, old(self)@.ready_text())]
            },
            old(self)@.valid() ==> final(self)@.valid(),
    {
        let mut todo = nothing();
        if self.interval_id == 0 {
            then_do(
                &mut todo,
                log_error("set_interval unavailable — plugin cannot run".to_owned()),
            );
            let more = self.shutdown(now);
            then_all(&mut todo, more);
            assert(acts(todo@) =~= seq![
                log_line(LOG_ERROR, "set_interval unavailable — plugin cannot run"@),
            ] + old(self)@.shut_acts(now));
            (mpl_result_t::MPL_ERR_RUNTIME, todo)
        } else {
            let mut text = joined3("ready (theme ", self.cfg.theme.as_str(), ", tick ");
            text.append(number(self.cfg.update_ms).as_str());
            text.append("ms, visible ");
            text.append(bool_word(self.cfg.visible));
            text.append(")");
            then_do(&mut todo, log_info(text));
            assert(acts(todo@) =~= seq![log_line(LOG_INFO, self@.ready_text())]);
            (mpl_result_t::MPL_OK, todo)
        }
    }

    /// Counts a tick and says what is to be done on it, in order.
    pub fn begin_tick(&mut self) -> (order: Vec<Stage>)
        ensures
            final(self)@ == old(self)@.ticked(),
            final(self)@ == (CoreView { tick: next_tick(old(self)@.tick), ..old(self)@ }),
            order@ == stages(final(self)@.tick),
            old(self)@.valid() ==> final(self)@.valid(),
    {
        if self.tick < u64::MAX {
            self.tick = self.tick + 1;
        }
        let mut order: Vec<Stage> = Vec::new();
        order.push(Stage::Supervise);
        order.push(Stage::Events);
        order.push(Stage::Audio);
        if self.tick % CFG_POLL_TICKS == 0 {
            order.push(Stage::PollConfig);
        }
        if self.tick % DIR_SCAN_TICKS == 0 {
            order.push(Stage::ScanThemes);
        }
        order.push(Stage::FlushPosition);
        assert(self@ =~= (CoreView { tick: next_tick(old(self)@.tick), ..old(self)@ }));
        assert(order@ =~= stages(self@.tick));
        order
    }

    /// Reads the settings and acts on a new timer or theme. The rest is left to
    /// [`Core::settle_cfg`], once these actions are done.
    pub fn poll_cfg(&mut self, raw: &RawCfg) -> (polled: (Before, Vec<Action>))
        ensures
            final(self)@ == old(self)@.loaded(raw@.parsed()),
            polled.0 == old(self)@.noted_before(),
            polled.0 == (Before {
                visible: old(self)@.cfg.visible,
                had_pos: old(self)@.win_pos is Some,
            }),
            acts(polled.1@) == old(self)@.poll_acts(raw@.parsed()),
            old(self)@.valid() ==> final(self)@.valid(),
    {
        let p = raw.parse();
        self.poll_parsed(&p)
    }

    /// Takes over settings that were read, as [`Core::poll_cfg`] does.
    pub fn poll_parsed(&mut self, p: &ParsedCfg) -> (polled: (Before, Vec<Action>))
        ensures
            final(self)@ == old(self)@.loaded(p@),
            polled.0 == old(self)@.noted_before(),
            polled.0 == (Before {
                visible: old(self)@.cfg.visible,
                had_pos: old(self)@.win_pos is Some,
            }),
            acts(polled.1@) == old(self)@.poll_acts(p@),
            old(self)@.valid() ==> final(self)@.valid(),
    {
        let before = Before { visible: self.cfg.visible, had_pos: self.win_pos.is_some() };
        let theme = self.cfg.theme.clone();
        let update_ms: u64 = self.cfg.update_ms;
        self.adopt(p);
        let mut todo = nothing();
        if self.cfg.update_ms != update_ms {
            then_all(&mut todo, self.clear_interval());
            then_do(
                &mut todo,
                Action::SetInterval { ms: self.cfg.update_ms, payload: "cfw".to_owned() },
            );
            then_do(
                &mut todo,
                log_info(
                    joined3("tick interval now ", number(self.cfg.update_ms).as_str(), "ms"),
                ),
            );
            assert(acts(todo@) =~= self@.rearm_acts());
        }
        if !same_text(self.cfg.theme.as_str(), theme.as_str()) {
            then_all(&mut todo, self.reload_theme());
        }
        assert(acts(todo@) =~= old(self)@.poll_acts(p@));
        (before, todo)
    }

    /// Shows or hides the window, and puts it back in its default place, as the
    /// settings now ask and did not before.
    pub fn settle_cfg(&mut self, before: Before, now: u64) -> (todo: Vec<Action>)
        ensures
            final(self)@ == old(self)@.settled(before, now),
            acts(todo@) == old(self)@.settle_acts(before),
            old(self)@.valid() ==> final(self)@.valid(),
    {
        let mut todo = nothing();
        if self.cfg.visible != before.visible {
            if self.cfg.visible {
                self.gave_up = false;
                self.restarts = 0;
                self.next_retry = now;
                if self.helper.is_none() {
                    then_do(&mut todo, self.spawn_helper());
                }
            } else if self.helper.is_some() {
                then_do(&mut todo, Action::Send(Cmd::Visible { show: false }));
                self.helper_state = HelperState::Hidden;
            }
        }
        if self.win_pos.is_none() && before.had_pos {
            then_all(&mut todo, self.send(Cmd::PosDefault));
        }
        assert(self@ =~= old(self)@.settled(before, now));
        assert(acts(todo@) =~= old(self)@.settle_acts(before));
        todo
    }
}

} // verus!
