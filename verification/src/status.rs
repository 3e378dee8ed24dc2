//! The state frames for the window and the status that the panel shows.

use vstd::prelude::*;

use crate::action::{acts, config, nothing, set_config, then_all, then_do, Action};
use crate::json::{json_quote, quoted};
use crate::plugin::{elapsed, since, STATUS_WRITE};
use crate::plugin::{Acts, Core, CoreView};
use crate::protocol::{Cmd, Real, StatePayload};
use crate::session::{duration_text, format_duration, SessionSnapshot, SessionView};
use crate::text::{bool_text, bool_word, decimal, number, same_text};

verus! {

/// What the host says of the audio. Levels are within 0 and 1.
#[derive(Debug, Clone, Copy, PartialEq, Eq, Structural)]
pub struct AudioState {
    pub streaming: bool,
    pub sample_rate: u32,
    pub channels: u32,
    pub input_level: Real,
    pub processed_level: Real,
    pub queued_ms: Real,
    pub muted: bool,
}

/// The numbers of a frame that the status shows rounded, as JSON texts.
#[derive(Debug, PartialEq, Eq)]
pub struct Rounded<Text = String> {
    /// The input level, to two decimals.
    pub level: Text,
    /// The queue, to one decimal of a millisecond.
    pub queued_ms: Text,
}

impl View for Rounded {
    type V = Rounded<Seq<char>>;

    open spec fn view(&self) -> Rounded<Seq<char>> {
        Rounded { level: self.level@, queued_ms: self.queued_ms@ }
    }
}

/// The frame that stands for an audio state and a session of `seconds`.
pub open spec fn frame(
    st: AudioState,
    monitoring: bool,
    session: SessionView<u64>,
    seconds: u64,
) -> StatePayload<Seq<char>> {
    StatePayload {
        level: st.input_level,
        processed: st.processed_level,
        muted: st.muted,
        streaming: st.streaming,
        monitoring,
        sample_rate: st.sample_rate,
        channels: st.channels,
        queued_ms: st.queued_ms,
        session_seconds: seconds,
        session_text: duration_text(seconds as nat),
        device_label: session.label,
        device_mode: session.mode,
    }
}

/// The status as a JSON object, its keys in alphabetical order.
pub open spec fn status_json(p: StatePayload<Seq<char>>, r: Rounded<Seq<char>>) -> Seq<char> {
    "{\"channels\":"@ + decimal(p.channels as nat) + ",\"deviceLabel\":"@ + json_quote(
        p.device_label,
    ) + ",\"level\":"@ + r.level + ",\"monitoring\":"@ + bool_text(p.monitoring) + ",\"muted\":"@
        + bool_text(p.muted) + ",\"queuedMs\":"@ + r.queued_ms + ",\"sampleRate\":"@ + decimal(
        p.sample_rate as nat,
    ) + ",\"sessionSeconds\":"@ + decimal(p.session_seconds as nat) + ",\"sessionText\":"@
        + json_quote(p.session_text) + ",\"streaming\":"@ + bool_text(p.streaming) + "}"@
}

impl CoreView {
    /// Whether a status is written now: when it is another one than the last, and at
    /// most once per [`STATUS_WRITE`].
    pub open spec fn mirrors(self, text: Seq<char>, now: u64) -> bool {
        text != self.last_status_json && since(now, self.last_status_write) >= STATUS_WRITE
    }

    /// Whether the window's state is written now, by the same rule.
    pub open spec fn mirrors_state(self, now: u64) -> bool {
        &&& self.last_helper_state_written != Some(self.helper_state)
        &&& since(now, self.last_helper_state_write) >= STATUS_WRITE
    }

    pub open spec fn mirrored(self, text: Seq<char>, now: u64) -> CoreView {
        let told = if self.mirrors(text, now) {
            CoreView { last_status_json: text, last_status_write: now, ..self }
        } else {
            self
        };
        if self.mirrors_state(now) {
            CoreView {
                last_helper_state_written: Some(self.helper_state),
                last_helper_state_write: now,
                ..told
            }
        } else {
            told
        }
    }

    /// The writes of the status and of the window's state.
    pub open spec fn mirror_acts(self, text: Seq<char>, now: u64) -> Acts {
        let status: Acts = if self.mirrors(text, now) {
            seq![config("status"@, text)]
        } else {
            seq![]
        };
        if self.mirrors_state(now) {
            status.push(config("helperState"@, json_quote(self.helper_state.label())))
        } else {
            status
        }
    }

    /// The state after a frame was shown, given the session and its `seconds`.
    pub open spec fn shown(
        self,
        st: AudioState,
        r: Rounded<Seq<char>>,
        seconds: u64,
        now: u64,
    ) -> CoreView {
        let p = frame(st, self.monitoring, self.session, seconds);
        (CoreView { muted: st.muted, ..self }).mirrored(status_json(p, r), now)
    }

    pub open spec fn show_acts(
        self,
        st: AudioState,
        r: Rounded<Seq<char>>,
        seconds: u64,
        now: u64,
    ) -> Acts {
        let p = frame(st, self.monitoring, self.session, seconds);
        let sent: Acts = if self.helper is Some {
            seq![Action::Send(Cmd::State(p))]
        } else {
            seq![]
        };
        sent + self.mirror_acts(status_json(p, r), now)
    }

    /// The state once the window's state was noted as written.
    pub open spec fn state_noted(self) -> CoreView {
        CoreView { last_helper_state_written: Some(self.helper_state), ..self }
    }

    /// The state once the session has seen an audio state.
    pub open spec fn noticed(self, st: AudioState, now: u64) -> CoreView {
        CoreView { session: self.session.observed(st.streaming, now), ..self }
    }

    /// The state after an audio state was shown, with the seconds that the session
    /// has lasted.
    pub open spec fn pushed(self, st: AudioState, r: Rounded<Seq<char>>, now: u64) -> CoreView {
        let seen = self.noticed(st, now);
        seen.shown(st, r, seen.session.seconds_at(now), now)
    }

    pub open spec fn push_acts(self, st: AudioState, r: Rounded<Seq<char>>, now: u64) -> Acts {
        let seen = self.noticed(st, now);
        seen.show_acts(st, r, seen.session.seconds_at(now), now)
    }
}

/// The status as a JSON object.
pub fn status_text(p: &StatePayload, r: &Rounded) -> (out: String)
    ensures
        out@ == status_json(p@, r@),
{
    let mut out = "{\"channels\":".to_owned();
    out.append(number(p.channels as u64).as_str());
    out.append(",\"deviceLabel\":");
    out.append(quoted(p.device_label.as_str()).as_str());
    out.append(",\"level\":");
    out.append(r.level.as_str());
    out.append(",\"monitoring\":");
    out.append(bool_word(p.monitoring));
    out.append(",\"muted\":");
    out.append(bool_word(p.muted));
    out.append(",\"queuedMs\":");
    out.append(r.queued_ms.as_str());
    out.append(",\"sampleRate\":");
    out.append(number(p.sample_rate as u64).as_str());
    out.append(",\"sessionSeconds\":");
    out.append(number(p.session_seconds).as_str());
    out.append(",\"sessionText\":");
    out.append(quoted(p.session_text.as_str()).as_str());
    out.append(",\"streaming\":");
    out.append(bool_word(p.streaming));
    out.append("}");
    out
}

impl Core {
    /// Shows an audio state: in the window, and to the panel.
    pub fn push_state(&mut self, st: AudioState, r: &Rounded, now: u64) -> (todo: Vec<Action>)
        requires
            old(self)@.valid(),
        ensures
            final(self)@ == old(self)@.pushed(st, r@, now),
            acts(todo@) == old(self)@.push_acts(st, r@, now),
            final(self)@.valid(),
    {
        self.session.observe_streaming_at(st.streaming, now);
        assert(self@ =~= old(self)@.noticed(st, now));
        let snap = self.session.snapshot_at(now);
        self.show_state(st, r, snap, now)
    }

    /// Shows an audio state together with a snapshot of the session.
    pub fn show_state(&mut self, st: AudioState, r: &Rounded, snap: SessionSnapshot, now: u64) -> (
        todo: Vec<Action>)
        requires
            snap.label@ == old(self)@.session.label,
            snap.mode@ == old(self)@.session.mode,
        ensures
            final(self)@ == old(self)@.shown(st, r@, snap.seconds, now),
            acts(todo@) == old(self)@.show_acts(st, r@, snap.seconds, now),
            old(self)@.valid() ==> final(self)@.valid(),
    {
        self.muted = st.muted;
        let payload = StatePayload {
            level: st.input_level,
            processed: st.processed_level,
            muted: st.muted,
            streaming: st.streaming,
            monitoring: self.monitoring,
            sample_rate: st.sample_rate,
            channels: st.channels,
            queued_ms: st.queued_ms,
            session_seconds: snap.seconds,
            session_text: format_duration(snap.seconds),
            device_label: snap.label,
            device_mode: snap.mode,
        };
        let text = status_text(&payload, r);
        let mut todo = nothing();
        if self.helper.is_some() {
            then_do(&mut todo, Action::Send(Cmd::State(payload)));
        }
        let ghost p = frame(st, old(self)@.monitoring, old(self)@.session, snap.seconds);
        assert(payload@ == p);
        let more = self.mirror_status(text, now);
        then_all(&mut todo, more);
        assert(acts(todo@) =~= old(self)@.show_acts(st, r@, snap.seconds, now));
        todo
    }

    /// Writes the status and the window's state for the panel, where they are new and
    /// it is time to.
    pub fn mirror_status(&mut self, text: String, now: u64) -> (todo: Vec<Action>)
        ensures
            final(self)@ == old(self)@.mirrored(text@, now),
            acts(todo@) == old(self)@.mirror_acts(text@, now),
            old(self)@.valid() ==> final(self)@.valid(),
    {
        let mut todo = nothing();
        let changed = !same_text(text.as_str(), self.last_status_json.as_str());
        if changed && elapsed(now, self.last_status_write) >= STATUS_WRITE {
            then_do(&mut todo, set_config("status", text.as_str()));
            self.last_status_json = text;
            self.last_status_write = now;
        }
        if elapsed(now, self.last_helper_state_write) >= STATUS_WRITE
            && self.helper_state_changed() {
            self.last_helper_state_write = now;
            then_do(
                &mut todo,
                set_config("helperState", quoted(self.helper_state.name()).as_str()),
            );
        }
        assert(self@ =~= old(self)@.mirrored(text@, now));
        assert(acts(todo@) =~= old(self)@.mirror_acts(text@, now));
        todo
    }

    /// Whether the window's state differs from the one written last, which from
    /// now on is this one.
    pub fn helper_state_changed(&mut self) -> (changed: bool)
        ensures
            changed == (old(self)@.last_helper_state_written != Some(old(self)@.helper_state)),
            final(self)@ == old(self)@.state_noted(),
            final(self)@ == (CoreView {
                last_helper_state_written: Some(old(self)@.helper_state),
                ..old(self)@
            }),
    {
        let changed = match self.last_helper_state_written {
            Some(written) => written != self.helper_state,
            None => true,
        };
        self.last_helper_state_written = Some(self.helper_state);
        changed
    }
}

} // verus!
