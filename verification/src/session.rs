//! Connection tracking: how long the current connection has lasted.
//!
//! A `device_connected` event opens a session and `device_disconnected` closes
//! it. A connection that was there before the plugin was enabled sends no
//! event, so a session is also inferred when the `streaming` flag goes from false
//! to true. An inferred session, and no other, ends when the flag stays false for
//! [`FALLBACK_END_TICKS`] observations in a row.

use std::time::{Duration, Instant};

use vstd::prelude::*;

use crate::plugin::{elapsed, since};
use crate::text::{decimal, push_decimal, push_two_digits, two_digits};

verus! {

/// Observations of `streaming == false` in a row that end an inferred session.
pub const FALLBACK_END_TICKS: u32 = 30;

/// Nanoseconds in a second.
pub const SECOND: u64 = 1_000_000_000;

/// `std::time::Instant`, a reading of the monotonic clock.
#[verifier::external_type_specification]
#[verifier::external_body]
pub struct ExInstant(std::time::Instant);

/// Whether the clock can have given this reading.
pub uninterp spec fn may_be_now(reading: Instant) -> bool;

/// Where a reading stands on the line of its clock, in nanoseconds. Only distances
/// between readings mean anything.
pub uninterp spec fn nanos_of(reading: Instant) -> int;

/// The length of a time, in nanoseconds.
pub uninterp spec fn nanos_in(time: Duration) -> nat;

/// `Instant::now`: a reading of the clock. Which one it is, nothing says.
pub assume_specification[ std::time::Instant::now ]() -> (now: Instant)
    ensures
        may_be_now(now),
;

/// `Instant::saturating_duration_since`: the time from the earlier reading to the
/// later one, and no time where they are the other way round.
pub assume_specification[ std::time::Instant::saturating_duration_since ](
    later: &Instant,
    earlier: Instant,
) -> (time: Duration)
    ensures
        nanos_in(time) == if nanos_of(*later) >= nanos_of(earlier) {
            nanos_of(*later) - nanos_of(earlier)
        } else {
            0
        },
;

/// `Duration::as_secs`: the whole seconds.
pub assume_specification[ std::time::Duration::as_secs ](time: &Duration) -> (secs: u64)
    ensures
        secs == nanos_in(*time) / 1_000_000_000,
;

/// What a session looks like at one moment.
#[derive(Debug, Clone, PartialEq, Eq)]
pub struct SessionSnapshot {
    pub connected: bool,
    /// Seconds since the connection was established; 0 without one.
    pub seconds: u64,
    pub label: String,
    pub mode: String,
}

/// A snapshot, as contracts speak of it.
#[verifier::ext_equal]
pub struct SnapshotView {
    pub connected: bool,
    pub seconds: int,
    pub label: Seq<char>,
    pub mode: Seq<char>,
}

impl View for SessionSnapshot {
    type V = SnapshotView;

    open spec fn view(&self) -> SnapshotView {
        SnapshotView {
            connected: self.connected,
            seconds: self.seconds as int,
            label: self.label@,
            mode: self.mode@,
        }
    }
}

/// The current connection, if there is one. Moments are readings of the clock of
/// std, or plain nanoseconds of a clock that the caller reads.
#[derive(Debug)]
pub struct Session<Moment = Instant> {
    connected_at: Option<Moment>,
    label: String,
    mode: String,
    /// Whether the session was inferred from the `streaming` flag.
    inferred: bool,
    offline_ticks: u32,
    /// The `streaming` flag as it was last seen.
    last_streaming: bool,
}

/// A session, as contracts speak of it.
#[verifier::ext_equal]
pub struct SessionView<Moment> {
    pub connected_at: Option<Moment>,
    pub label: Seq<char>,
    pub mode: Seq<char>,
    pub inferred: bool,
    pub offline_ticks: nat,
    pub last_streaming: bool,
}

impl<Moment> SessionView<Moment> {
    pub open spec fn connected(self) -> bool {
        self.connected_at is Some
    }

    /// No connection, and no streaming seen yet.
    pub open spec fn fresh() -> SessionView<Moment> {
        SessionView {
            connected_at: None,
            label: seq![],
            mode: seq![],
            inferred: false,
            offline_ticks: 0,
            last_streaming: false,
        }
    }

    /// The same without a connection.
    pub open spec fn closed(self) -> SessionView<Moment> {
        SessionView { last_streaming: self.last_streaming, ..SessionView::fresh() }
    }

    /// The same with a connection that a device event opened at `now`.
    pub open spec fn opened(self, mode: Seq<char>, label: Seq<char>, now: Moment) -> SessionView<
        Moment,
    > {
        SessionView {
            connected_at: Some(now),
            label,
            mode,
            inferred: false,
            offline_ticks: 0,
            last_streaming: self.last_streaming,
        }
    }

    /// The session after one observation of the `streaming` flag at `now`.
    pub open spec fn observed(self, streaming: bool, now: Moment) -> SessionView<Moment> {
        let seen = SessionView { last_streaming: streaming, ..self };
        if streaming && !self.last_streaming && !self.connected() {
            SessionView { connected_at: Some(now), inferred: true, offline_ticks: 0, ..seen }
        } else if streaming {
            SessionView { offline_ticks: 0, ..seen }
        } else if !self.inferred {
            seen
        } else if self.offline_ticks + 1 < FALLBACK_END_TICKS {
            SessionView { offline_ticks: self.offline_ticks + 1, ..seen }
        } else {
            seen.closed()
        }
    }

    /// Only an open session is inferred or has a device, only an inferred one
    /// counts observations, and it has always some left.
    pub open spec fn valid(self) -> bool {
        &&& !self.connected() ==> self == self.closed()
        &&& !self.inferred ==> self.offline_ticks == 0
        &&& self.offline_ticks < FALLBACK_END_TICKS
    }

    /// What the session looks like when it has lasted for `seconds`.
    pub open spec fn lasting(self, seconds: int) -> SnapshotView {
        SnapshotView {
            connected: self.connected(),
            seconds: if self.connected() {
                seconds
            } else {
                0
            },
            label: self.label,
            mode: self.mode,
        }
    }
}

impl SessionView<u64> {
    /// Seconds that the connection has lasted at `now`.
    pub open spec fn seconds_at(self, now: u64) -> u64 {
        match self.connected_at {
            Some(from) => since(now, from) / SECOND,
            None => 0,
        }
    }

    /// What the session looks like at `now`.
    pub open spec fn seen_at(self, now: u64) -> SnapshotView {
        self.lasting(self.seconds_at(now) as int)
    }
}

impl SessionView<Instant> {
    /// Seconds that the connection has lasted at `now`.
    pub open spec fn seconds_on(self, now: Instant) -> int {
        match self.connected_at {
            Some(from) => if nanos_of(now) >= nanos_of(from) {
                (nanos_of(now) - nanos_of(from)) / 1_000_000_000
            } else {
                0
            },
            None => 0,
        }
    }

    /// What the session looks like at `now`.
    pub open spec fn seen_on(self, now: Instant) -> SnapshotView {
        self.lasting(self.seconds_on(now))
    }
}

impl<Moment> View for Session<Moment> {
    type V = SessionView<Moment>;

    closed spec fn view(&self) -> SessionView<Moment> {
        SessionView {
            connected_at: self.connected_at,
            label: self.label@,
            mode: self.mode@,
            inferred: self.inferred,
            offline_ticks: self.offline_ticks as nat,
            last_streaming: self.last_streaming,
        }
    }
}

impl Default for Session {
    fn default() -> (session: Session)
        ensures
            session@ == SessionView::<Instant>::fresh(),
    {
        Session::new()
    }
}

impl<Moment> Session<Moment> {
    /// A session without a connection.
    pub fn start() -> (session: Session<Moment>)
        ensures
            session@ == SessionView::<Moment>::fresh(),
            session@.valid(),
    {
        let session = Session {
            connected_at: None,
            label: String::new(),
            mode: String::new(),
            inferred: false,
            offline_ticks: 0,
            last_streaming: false,
        };
        assert(session@ =~= SessionView::<Moment>::fresh());
        session
    }

    /// A device connected at `now`.
    pub fn device_connected_at(&mut self, mode: &str, label: &str, now: Moment)
        ensures
            final(self)@ == old(self)@.opened(mode@, label@, now),
            final(self)@.valid(),
    {
        self.connected_at = Some(now);
        self.label = label.to_owned();
        self.mode = mode.to_owned();
        self.inferred = false;
        self.offline_ticks = 0;
        assert(self@ =~= old(self)@.opened(mode@, label@, now));
    }

    /// The device left.
    pub fn device_disconnected(&mut self)
        ensures
            final(self)@ == old(self)@.closed(),
            final(self)@.valid(),
    {
        self.connected_at = None;
        self.label = String::new();
        self.mode = String::new();
        self.inferred = false;
        self.offline_ticks = 0;
        assert(self@ =~= old(self)@.closed());
    }

    /// One observation of the `streaming` flag, made at `now`.
    pub fn observe_streaming_at(&mut self, streaming: bool, now: Moment)
        requires
            old(self)@.valid(),
        ensures
            final(self)@ == old(self)@.observed(streaming, now),
            final(self)@.valid(),
    {
        let rises = streaming && !self.last_streaming;
        self.last_streaming = streaming;
        if streaming {
            self.offline_ticks = 0;
            if rises && self.connected_at.is_none() {
                self.connected_at = Some(now);
                self.inferred = true;
            }
        } else if self.inferred {
            self.offline_ticks = self.offline_ticks + 1;
            if self.offline_ticks >= FALLBACK_END_TICKS {
                self.device_disconnected();
            }
        }
        assert(self@ =~= old(self)@.observed(streaming, now));
    }

    /// The session `elapsed` seconds after it was opened.
    pub fn snapshot_after(&self, elapsed: u64) -> (snap: SessionSnapshot)
        ensures
            snap@ == self@.lasting(elapsed as int),
    {
        let connected = self.connected_at.is_some();
        let seconds: u64 = if connected {
            elapsed
        } else {
            0
        };
        let snap = SessionSnapshot {
            connected,
            seconds,
            label: self.label.clone(),
            mode: self.mode.clone(),
        };
        assert(snap@ =~= self@.lasting(elapsed as int));
        snap
    }
}

impl Session<u64> {
    /// The session as it is at `now`, in nanoseconds.
    pub fn snapshot_at(&self, now: u64) -> (snap: SessionSnapshot)
        ensures
            snap@ == self@.seen_at(now),
    {
        let seconds: u64 = match self.connected_at {
            Some(from) => elapsed(now, from) / SECOND,
            None => 0,
        };
        self.snapshot_after(seconds)
    }
}

impl Session<Instant> {
    pub fn new() -> (session: Session)
        ensures
            session@ == SessionView::<Instant>::fresh(),
            session@.valid(),
    {
        Session::start()
    }

    /// A device connected: the clock starts anew, with the reading of this moment.
    pub fn device_connected(&mut self, mode: &str, label: &str)
        ensures
            exists|now: Instant| #[trigger] may_be_now(now)
                && final(self)@ == old(self)@.opened(mode@, label@, now),
            final(self)@.valid(),
    {
        let now = Instant::now();
        self.device_connected_at(mode, label, now);
    }

    /// One observation of the `streaming` flag, made now.
    pub fn observe_streaming(&mut self, streaming: bool)
        requires
            old(self)@.valid(),
        ensures
            exists|now: Instant| #[trigger] may_be_now(now)
                && final(self)@ == old(self)@.observed(streaming, now),
            final(self)@.valid(),
    {
        let now = Instant::now();
        self.observe_streaming_at(streaming, now);
    }

    /// The session as it is now.
    pub fn snapshot(&self) -> (snap: SessionSnapshot)
        ensures
            exists|now: Instant| #[trigger] may_be_now(now) && snap@ == self@.seen_on(now),
    {
        let now = Instant::now();
        self.snapshot_on(now)
    }

    /// The session as it is at the reading `now`.
    pub fn snapshot_on(&self, now: Instant) -> (snap: SessionSnapshot)
        ensures
            snap@ == self@.seen_on(now),
    {
        let seconds: u64 = match self.connected_at {
            Some(from) => now.saturating_duration_since(from).as_secs(),
            None => 0,
        };
        self.snapshot_after(seconds)
    }
}

/// As long as nothing happens to a session, a later look at it finds the same
/// connection, and no fewer seconds.
pub proof fn law_seconds_never_fall(s: SessionView<Instant>, first: Instant, second: Instant)
    requires
        nanos_of(first) <= nanos_of(second),
    ensures
        s.seen_on(second) == (SnapshotView {
            seconds: s.seconds_on(second),
            ..s.seen_on(first)
        }),
        0 <= s.seen_on(first).seconds <= s.seen_on(second).seconds,
{
    assert(s.seen_on(second) =~= (SnapshotView {
        seconds: s.seconds_on(second),
        ..s.seen_on(first)
    }));
}

/// The same of a session that counts plain nanoseconds.
pub proof fn law_counted_seconds_never_fall(s: SessionView<u64>, first: u64, second: u64)
    requires
        first <= second,
    ensures
        s.seen_at(second) == (SnapshotView {
            seconds: s.seconds_at(second) as int,
            ..s.seen_at(first)
        }),
        s.seen_at(first).seconds <= s.seen_at(second).seconds,
{
    assert(s.seen_at(second) =~= (SnapshotView {
        seconds: s.seconds_at(second) as int,
        ..s.seen_at(first)
    }));
}

/// A session after a row of observations, each a flag and the moment it was seen.
pub open spec fn observed_all<Moment>(
    s: SessionView<Moment>,
    seen: Seq<(bool, Moment)>,
) -> SessionView<Moment>
    decreases seen.len(),
{
    if seen.len() == 0 {
        s
    } else {
        observed_all(s, seen.drop_last()).observed(seen.last().0, seen.last().1)
    }
}

/// Whether `seen` holds only observations of one state of the flag.
pub open spec fn always<Moment>(seen: Seq<(bool, Moment)>, streaming: bool) -> bool {
    forall|i: int| 0 <= i < seen.len() ==> (#[trigger] seen[i]).0 == streaming
}

/// The flag as it was last seen.
pub open spec fn flag_after<Moment>(s: SessionView<Moment>, seen: Seq<(bool, Moment)>) -> bool {
    if seen.len() == 0 {
        s.last_streaming
    } else {
        seen.last().0
    }
}

/// Without a device event, a session opens when the `streaming` flag goes from false
/// to true, and at no other observation.
pub proof fn law_sessions_open_on_a_rise<Moment>(
    s: SessionView<Moment>,
    streaming: bool,
    now: Moment,
)
    requires
        s.valid(),
        !s.connected(),
    ensures
        s.observed(streaming, now).connected() <==> streaming && !s.last_streaming,
        s.observed(streaming, now).connected() ==> s.observed(streaming, now).connected_at == Some(
            now,
        ),
{
}

/// A disconnection stands: as long as the flag that was seen true before stays true,
/// nothing opens a session again.
pub proof fn law_disconnection_stands<Moment>(s: SessionView<Moment>, seen: Seq<(bool, Moment)>)
    requires
        s.last_streaming,
        always(seen, true),
    ensures
        observed_all(s.closed(), seen) == s.closed(),
    decreases seen.len(),
{
    if seen.len() > 0 {
        law_disconnection_stands(s, seen.drop_last());
        assert(seen.last().0);
        assert(s.closed().observed(true, seen.last().1) =~= s.closed());
    }
}

/// No observation of the `streaming` flag changes a connection that a device event
/// opened, so its clock runs until the device leaves or another one connects.
pub proof fn law_device_session_keeps_running<Moment>(
    s: SessionView<Moment>,
    seen: Seq<(bool, Moment)>,
)
    requires
        s.valid(),
        s.connected(),
        !s.inferred,
    ensures
        observed_all(s, seen) == (SessionView { last_streaming: flag_after(s, seen), ..s }),
    decreases seen.len(),
{
    if seen.len() > 0 {
        law_device_session_keeps_running(s, seen.drop_last());
    }
    assert(observed_all(s, seen) =~= (SessionView { last_streaming: flag_after(s, seen), ..s }));
}

/// An inferred session that was just seen streaming keeps its clock through
/// fewer than [`FALLBACK_END_TICKS`] silent observations and is closed by that
/// many; silence afterwards opens nothing.
pub proof fn law_inferred_session_ends_after_grace<Moment>(
    s: SessionView<Moment>,
    seen: Seq<(bool, Moment)>,
)
    requires
        s.valid(),
        s.connected(),
        s.inferred,
        s.offline_ticks == 0,
        always(seen, false),
    ensures
        seen.len() < FALLBACK_END_TICKS ==> observed_all(s, seen) == (SessionView {
            offline_ticks: seen.len(),
            last_streaming: flag_after(s, seen),
            ..s
        }),
        seen.len() >= FALLBACK_END_TICKS ==> observed_all(s, seen) == SessionView::<
            Moment,
        >::fresh(),
    decreases seen.len(),
{
    if seen.len() > 0 {
        law_inferred_session_ends_after_grace(s, seen.drop_last());
        assert(!seen.last().0);
        let before = observed_all(s, seen.drop_last());
        assert(before.observed(false, seen.last().1) =~= if seen.len() < FALLBACK_END_TICKS {
            SessionView { offline_ticks: seen.len(), last_streaming: false, ..s }
        } else {
            SessionView::<Moment>::fresh()
        });
    } else {
        assert(s =~= (SessionView { offline_ticks: 0, ..s }));
    }
}

/// A connection starts counting when `streaming` is first seen, and neither
/// later observations of it nor short interruptions move that moment.
pub proof fn law_inferred_clock_starts_once<Moment>(first: Moment, seen: Seq<(bool, Moment)>)
    ensures
        ({
            let opened = SessionView::<Moment>::fresh().observed(true, first);
            let s = observed_all(opened, seen);
            &&& opened.connected_at == Some(first)
            &&& s.valid()
            &&& s.connected() && s.connected_at != Some(first) ==> exists|i: int|
                0 <= i < seen.len() && !(#[trigger] observed_all(opened, seen.take(i))).connected()
        }),
    decreases seen.len(),
{
    let opened = SessionView::<Moment>::fresh().observed(true, first);
    if seen.len() > 0 {
        law_inferred_clock_starts_once(first, seen.drop_last());
        let prev = observed_all(opened, seen.drop_last());
        let s = observed_all(opened, seen);
        if s.connected() && s.connected_at != Some(first) {
            if prev.connected() && prev.connected_at != Some(first) {
                let i = choose|i: int|
                    0 <= i < seen.drop_last().len() && !(#[trigger] observed_all(
                        opened,
                        seen.drop_last().take(i),
                    )).connected();
                assert(seen.drop_last().take(i) =~= seen.take(i));
                assert(!observed_all(opened, seen.take(i)).connected());
            } else {
                assert(!prev.connected());
                let i = seen.len() - 1;
                assert(seen.take(i) =~= seen.drop_last());
                assert(!observed_all(opened, seen.take(i)).connected());
            }
        }
    }
}

/// `H:MM:SS`, or `MM:SS` below one hour.
pub open spec fn duration_text(secs: nat) -> Seq<char> {
    let h = secs / 3600;
    let m = secs % 3600 / 60;
    let s = secs % 60;
    let tail = two_digits(m) + seq![':'] + two_digits(s);
    if h > 0 {
        decimal(h) + seq![':'] + tail
    } else {
        tail
    }
}

/// A number of seconds as `H:MM:SS`, or as `MM:SS` below one hour.
pub fn format_duration(secs: u64) -> (out: String)
    ensures
        out@ == duration_text(secs as nat),
{
    let h: u64 = secs / 3600;
    let m: u64 = secs % 3600 / 60;
    let s: u64 = secs % 60;
    let mut out = String::new();
    if h > 0 {
        push_decimal(&mut out, h);
        out.push(':');
    }
    push_two_digits(&mut out, m);
    out.push(':');
    push_two_digits(&mut out, s);
    assert(out@ =~= duration_text(secs as nat));
    out
}

} // verus!
