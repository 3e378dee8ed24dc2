//! What the window and the host report, and what follows from it.

use vstd::prelude::*;

use crate::action::{acts, config, log_line, LOG_DEBUG, LOG_INFO, LOG_WARN};
use crate::action::{log, log_info, log_warn, nothing, set_config, then_all, then_do, Action};
use crate::config::Cfg;
use crate::json::{json_quote, quoted};
use crate::plugin::{tick_payload, Acts, Core, CoreView, HelperState};
use crate::protocol::{Cmd, Ev};
use crate::text::{joined2, joined3, same_text};

verus! {

/// The JSON text of an empty string.
pub open spec fn empty_json() -> Seq<char> {
    "\"\""@
}

impl CoreView {
    /// The state after an event of the window.
    pub open spec fn after_event(self, ev: Ev<Seq<char>>, now: u64) -> CoreView {
        match ev {
            Ev::Hide => CoreView {
                cfg: Cfg { visible: false, ..self.cfg },
                helper_state: HelperState::Hidden,
                ..self
            },
            Ev::Moved { x, y } => (CoreView { pending_pos: Some((x, y)), ..self }).flushed(
                false,
                now,
            ),
            Ev::Ready { theme, reloaded } => CoreView {
                restarts: 0,
                gave_up: false,
                crash_notified: false,
                helper_state: HelperState::Running,
                ..self
            },
            Ev::ThemeError { message } => if message.len() > 0 {
                CoreView { last_theme_err_notified: message, ..self }
            } else {
                self
            },
            _ => self,
        }
    }

    /// What an event of the window brings about.
    pub open spec fn event_acts(self, ev: Ev<Seq<char>>, now: u64) -> Acts {
        match ev {
            Ev::Mute => seq![Action::SetMuted { on: !self.muted }],
            Ev::Monitoring => seq![Action::SetMonitoring { on: !self.monitoring }],
            Ev::Menu { action } => if action == "reload-theme"@ {
                self.reload_acts()
            } else {
                seq![log_line(LOG_INFO, "theme menu action: "@ + action)]
            },
            Ev::Hide => seq![config("visible"@, "false"@)],
            Ev::Moved { x, y } => (CoreView { pending_pos: Some((x, y)), ..self }).flush_acts(
                false,
                now,
            ),
            Ev::Ready { theme, reloaded } => seq![
                config("themeError"@, empty_json()),
                log_line(
                    LOG_INFO,
                    "theme ready: "@ + theme + (if reloaded {
                        " (hot-swap)"@
                    } else {
                        ""@
                    }),
                ),
            ],
            Ev::ThemeError { message } => if message.len() == 0 {
                seq![]
            } else {
                let report = seq![
                    log_line(LOG_WARN, "theme error: "@ + message),
                    config("themeError"@, json_quote(message)),
                ];
                if self.last_theme_err_notified == message {
                    report
                } else {
                    report.push(Action::Notify { title: "悬浮窗主题错误"@, body: message })
                }
            },
            Ev::Log { message } => seq![log_line(LOG_DEBUG, "[helper] "@ + message)],
            Ev::Bye => seq![],
        }
    }

    /// A transcript goes to the window, where both are wanted and there.
    pub open spec fn wdis_acts(self, text: Seq<char>) -> Acts {
        if self.cfg.wdis_enabled && self.helper is Some {
            seq![Action::Send(Cmd::Wdis { text, hold_ms: self.cfg.wdis_hold_ms })]
        } else {
            seq![]
        }
    }

    /// A tick counts when it carries the plugin's tag and comes from the timer
    /// that runs now.
    pub open spec fn accepts(self, interval: u64, payload: Seq<char>) -> bool {
        payload == tick_payload() && interval == self.interval_id
    }
}

impl CoreView {
    /// The state after the host's answer to a mute request.
    pub open spec fn mute_answered(self, on: bool, accepted: bool) -> CoreView {
        if accepted {
            CoreView { muted: on, ..self }
        } else {
            self
        }
    }

    /// The state after the host's answer to a monitoring request.
    pub open spec fn monitoring_answered(self, on: bool, accepted: bool) -> CoreView {
        if accepted {
            CoreView { monitoring: on, ..self }
        } else {
            self
        }
    }
}

/// What the host's answer to a mute request brings about.
pub open spec fn mute_reply_acts(accepted: bool) -> Acts {
    if accepted {
        seq![]
    } else {
        seq![log_line(LOG_WARN, "set_muted rejected by host"@)]
    }
}

/// What the host's answer to a monitoring request brings about.
pub open spec fn monitoring_reply_acts(accepted: bool) -> Acts {
    if accepted {
        seq![]
    } else {
        seq![log_line(LOG_WARN, "set_monitoring rejected by host"@)]
    }
}

/// What the host reports.
#[derive(Debug, PartialEq, Eq)]
pub enum HostEvent<Text = String> {
    DeviceConnected { mode: Text, label: Text },
    DeviceDisconnected,
    MuteChanged { muted: bool },
    MonitoringChanged { enabled: bool },
}

impl View for HostEvent {
    type V = HostEvent<Seq<char>>;

    open spec fn view(&self) -> HostEvent<Seq<char>> {
        match *self {
            HostEvent::DeviceConnected { mode, label } => HostEvent::DeviceConnected {
                mode: mode@,
                label: label@,
            },
            HostEvent::DeviceDisconnected => HostEvent::DeviceDisconnected,
            HostEvent::MuteChanged { muted } => HostEvent::MuteChanged { muted },
            HostEvent::MonitoringChanged { enabled } => HostEvent::MonitoringChanged { enabled },
        }
    }
}

/// The kinds of host events that matter here.
#[derive(Debug, Clone, Copy, PartialEq, Eq, Structural)]
pub enum EventKind {
    DeviceConnected,
    DeviceDisconnected,
    MuteChanged,
    MonitoringChanged,
    Other,
}

pub open spec fn kind_of_event(name: Seq<char>) -> EventKind {
    if name == "device_connected"@ {
        EventKind::DeviceConnected
    } else if name == "device_disconnected"@ {
        EventKind::DeviceDisconnected
    } else if name == "mute_changed"@ {
        EventKind::MuteChanged
    } else if name == "monitoring_changed"@ {
        EventKind::MonitoringChanged
    } else {
        EventKind::Other
    }
}

/// The kind of a host event, by its name.
pub fn event_kind(name: &str) -> (kind: EventKind)
    ensures
        kind == kind_of_event(name@),
{
    if same_text(name, "device_connected") {
        EventKind::DeviceConnected
    } else if same_text(name, "device_disconnected") {
        EventKind::DeviceDisconnected
    } else if same_text(name, "mute_changed") {
        EventKind::MuteChanged
    } else if same_text(name, "monitoring_changed") {
        EventKind::MonitoringChanged
    } else {
        EventKind::Other
    }
}

impl CoreView {
    /// The state after an event of the host. A new connection counts from the moment
    /// of the event.
    pub open spec fn after_host_event(self, ev: HostEvent<Seq<char>>, now: u64) -> CoreView {
        match ev {
            HostEvent::DeviceConnected { mode, label } => CoreView {
                session: self.session.opened(mode, label, now),
                ..self
            },
            HostEvent::DeviceDisconnected => CoreView { session: self.session.closed(), ..self },
            HostEvent::MuteChanged { muted } => CoreView { muted, ..self },
            HostEvent::MonitoringChanged { enabled } => CoreView { monitoring: enabled, ..self },
        }
    }
}

pub open spec fn host_event_acts(ev: HostEvent<Seq<char>>) -> Acts {
    match ev {
        HostEvent::DeviceConnected { mode, label } => seq![
            log_line(LOG_INFO, "device connected: "@ + label + (" ("@ + mode + ")"@)),
        ],
        HostEvent::DeviceDisconnected => seq![log_line(LOG_INFO, "device disconnected"@)],
        _ => seq![],
    }
}

impl Core {
    /// Handles an event of the window.
    pub fn handle_helper_event(&mut self, ev: &Ev, now: u64) -> (todo: Vec<Action>)
        ensures
            final(self)@ == old(self)@.after_event(ev@, now),
            acts(todo@) == old(self)@.event_acts(ev@, now),
            old(self)@.valid() ==> final(self)@.valid(),
    {
        let mut todo = nothing();
        match ev {
            Ev::Mute => {
                then_do(&mut todo, Action::SetMuted { on: !self.muted });
            },
            Ev::Monitoring => {
                then_do(&mut todo, Action::SetMonitoring { on: !self.monitoring });
            },
            Ev::Menu { action } => {
                if same_text(action.as_str(), "reload-theme") {
                    then_all(&mut todo, self.reload_theme());
                } else {
                    then_do(
                        &mut todo,
                        log_info(joined2("theme menu action: ", action.as_str())),
                    );
                }
            },
            Ev::Hide => {
                self.cfg.visible = false;
                self.helper_state = HelperState::Hidden;
                then_do(&mut todo, set_config("visible", "false"));
            },
            Ev::Moved { x, y } => {
                self.pending_pos = Some((*x, *y));
                assert(self@ =~= (CoreView { pending_pos: Some((*x, *y)), ..old(self)@ }));
                let more = self.flush_pos(false, now);
                then_all(&mut todo, more);
            },
            Ev::Ready { theme, reloaded } => {
                self.restarts = 0;
                self.gave_up = false;
                self.crash_notified = false;
                self.helper_state = HelperState::Running;
                then_do(&mut todo, set_config("themeError", "\"\""));
                let how = if *reloaded {
                    " (hot-swap)"
                } else {
                    ""
                };
                then_do(&mut todo, log_info(joined3("theme ready: ", theme.as_str(), how)));
            },
            Ev::ThemeError { message } => {
                if !message.as_str().is_empty() {
                    then_do(&mut todo, log_warn(joined2("theme error: ", message.as_str())));
                    then_do(
                        &mut todo,
                        set_config("themeError", quoted(message.as_str()).as_str()),
                    );
                    if !same_text(self.last_theme_err_notified.as_str(), message.as_str()) {
                        self.last_theme_err_notified = message.clone();
                        then_do(
                            &mut todo,
                            Action::Notify {
                                title: "悬浮窗主题错误".to_owned(),
                                body: message.clone(),
                            },
                        );
                    }
                }
            },
            Ev::Log { message } => {
                then_do(&mut todo, log(LOG_DEBUG, joined2("[helper] ", message.as_str())));
            },
            Ev::Bye => {},
        }
        assert(self@ =~= old(self)@.after_event(ev@, now));
        assert(acts(todo@) =~= old(self)@.event_acts(ev@, now));
        todo
    }

    /// The host's answer to [`Action::SetMuted`].
    pub fn muted_reply(&mut self, on: bool, accepted: bool) -> (todo: Vec<Action>)
        ensures
            final(self)@ == old(self)@.mute_answered(on, accepted),
            acts(todo@) == mute_reply_acts(accepted),
            final(self)@ == (CoreView {
                muted: if accepted {
                    on
                } else {
                    old(self)@.muted
                },
                ..old(self)@
            }),
            acts(todo@) == if accepted {
                Acts::empty()
            } else {
                seq![log_line(LOG_WARN, "set_muted rejected by host"@)]
            },
            old(self)@.valid() ==> final(self)@.valid(),
    {
        let mut todo = nothing();
        if accepted {
            self.muted = on;
        } else {
            then_do(&mut todo, log_warn("set_muted rejected by host".to_owned()));
        }
        assert(acts(todo@) =~= if accepted {
            Acts::empty()
        } else {
            seq![log_line(LOG_WARN, "set_muted rejected by host"@)]
        });
        todo
    }

    /// The host's answer to [`Action::SetMonitoring`].
    pub fn monitoring_reply(&mut self, on: bool, accepted: bool) -> (todo: Vec<Action>)
        ensures
            final(self)@ == old(self)@.monitoring_answered(on, accepted),
            acts(todo@) == monitoring_reply_acts(accepted),
            final(self)@ == (CoreView {
                monitoring: if accepted {
                    on
                } else {
                    old(self)@.monitoring
                },
                ..old(self)@
            }),
            acts(todo@) == if accepted {
                Acts::empty()
            } else {
                seq![log_line(LOG_WARN, "set_monitoring rejected by host"@)]
            },
            old(self)@.valid() ==> final(self)@.valid(),
    {
        let mut todo = nothing();
        if accepted {
            self.monitoring = on;
        } else {
            then_do(&mut todo, log_warn("set_monitoring rejected by host".to_owned()));
        }
        assert(acts(todo@) =~= if accepted {
            Acts::empty()
        } else {
            seq![log_line(LOG_WARN, "set_monitoring rejected by host"@)]
        });
        todo
    }

    /// Handles an event of the host.
    pub fn handle_event(&mut self, ev: &HostEvent, now: u64) -> (todo: Vec<Action>)
        ensures
            final(self)@ == old(self)@.after_host_event(ev@, now),
            acts(todo@) == host_event_acts(ev@),
            old(self)@.valid() ==> final(self)@.valid(),
    {
        let mut todo = nothing();
        match ev {
            HostEvent::DeviceConnected { mode, label } => {
                self.session.device_connected_at(mode.as_str(), label.as_str(), now);
                let device = joined3(" (", mode.as_str(), ")");
                then_do(
                    &mut todo,
                    log_info(joined3("device connected: ", label.as_str(), device.as_str())),
                );
            },
            HostEvent::DeviceDisconnected => {
                self.session.device_disconnected();
                then_do(&mut todo, log_info("device disconnected".to_owned()));
            },
            HostEvent::MuteChanged { muted } => {
                self.muted = *muted;
            },
            HostEvent::MonitoringChanged { enabled } => {
                self.monitoring = *enabled;
            },
        }
        assert(self@ =~= old(self)@.after_host_event(ev@, now));
        assert(acts(todo@) =~= host_event_acts(ev@));
        todo
    }

    /// Handles a transcript.
    pub fn show_transcript(&self, text: String) -> (todo: Vec<Action>)
        ensures
            acts(todo@) == self@.wdis_acts(text@),
    {
        let mut todo = nothing();
        if self.cfg.wdis_enabled && self.helper.is_some() {
            then_do(
                &mut todo,
                Action::Send(Cmd::Wdis { text, hold_ms: self.cfg.wdis_hold_ms }),
            );
        }
        assert(acts(todo@) =~= self@.wdis_acts(text@));
        todo
    }

    /// Whether a tick is one of the plugin's own.
    pub fn accepts_tick(&self, interval: u64, payload: &str) -> (own: bool)
        ensures
            own == self@.accepts(interval, payload@),
    {
        same_text(payload, "cfw") && interval == self.interval_id
    }
}

} // verus!
