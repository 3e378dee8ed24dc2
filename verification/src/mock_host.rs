//! A stand-in for the host, to try the plugin without it: its timers, its command
//! line, and what happens while it runs.

use vstd::prelude::*;

use crate::plugin::{elapsed, since};
use crate::startup::{value, value_of};
use crate::text::{opt_text, parse_u64, same_text, spelled_u64, texts};

verus! {

/// How long the host runs when nothing else is asked for.
pub const DEFAULT_SECONDS: u64 = 20;

/// Time between two ticks where the configuration names none, and the least one.
pub const DEFAULT_UPDATE_MS: u64 = 100;

pub const LEAST_UPDATE_MS: u64 = 20;

/// The word for a log level.
pub open spec fn level_label(level: i32) -> Seq<char> {
    if level == 0 {
        "ERROR"@
    } else if level == 1 {
        "WARN"@
    } else if level == 2 {
        "INFO"@
    } else if level == 3 {
        "DEBUG"@
    } else {
        "TRACE"@
    }
}

/// The word for a log level.
pub fn level_name(level: i32) -> (word: &'static str)
    ensures
        word@ == level_label(level),
{
    match level {
        0 => "ERROR",
        1 => "WARN",
        2 => "INFO",
        3 => "DEBUG",
        _ => "TRACE",
    }
}

/// Whether a configuration write is worth a line: the status is written too often.
pub fn traces_key(key: &str) -> (yes: bool)
    ensures
        yes == (key@ != "status"@),
{
    !same_text(key, "status")
}

/// The command line of the host.
#[derive(Debug, PartialEq, Eq)]
pub struct MockArgs<Text = String> {
    pub plugin: Text,
    pub dir: Text,
    pub seconds: u64,
    pub state: Option<Text>,
}

impl View for MockArgs {
    type V = MockArgs<Seq<char>>;

    open spec fn view(&self) -> MockArgs<Seq<char>> {
        MockArgs {
            plugin: self.plugin@,
            dir: self.dir@,
            seconds: self.seconds,
            state: opt_text(self.state),
        }
    }
}

/// What the arguments ask for; plugin and directory have to be named.
pub open spec fn mock_args_of(args: Seq<Seq<char>>) -> Option<MockArgs<Seq<char>>> {
    match (value_of(args, "--plugin"@), value_of(args, "--dir"@)) {
        (Some(plugin), Some(dir)) => Some(
            MockArgs {
                plugin,
                dir,
                seconds: match value_of(args, "--seconds"@) {
                    Some(s) => match spelled_u64(s) {
                        Some(n) => n,
                        None => DEFAULT_SECONDS,
                    },
                    None => DEFAULT_SECONDS,
                },
                state: value_of(args, "--state"@),
            },
        ),
        _ => None,
    }
}

/// What the arguments ask for.
pub fn mock_args(args: &Vec<String>) -> (out: Option<MockArgs>)
    ensures
        match out {
            Some(a) => mock_args_of(texts(args@)) == Some(a@),
            None => mock_args_of(texts(args@)) is None,
        },
{
    match (value(args, "--plugin"), value(args, "--dir")) {
        (Some(plugin), Some(dir)) => {
            let seconds: u64 = match value(args, "--seconds") {
                Some(s) => match parse_u64(s.as_str()) {
                    Some(n) => n,
                    None => DEFAULT_SECONDS,
                },
                None => DEFAULT_SECONDS,
            };
            Some(MockArgs { plugin, dir, seconds, state: value(args, "--state") })
        },
        _ => None,
    }
}

/// The interval timers that run.
#[derive(Debug)]
pub struct Timers {
    pub ids: Vec<u64>,
    pub last_id: u64,
}

pub open spec fn other_than(id: u64) -> spec_fn(u64) -> bool {
    |x: u64| x != id
}

/// The timers without those of one id.
pub open spec fn without(ids: Seq<u64>, id: u64) -> Seq<u64> {
    ids.filter(other_than(id))
}

impl Timers {
    /// No id that runs is larger than the last one given out, and none runs twice.
    pub open spec fn valid(self) -> bool {
        &&& forall|i: int| 0 <= i < self.ids@.len() ==> #[trigger] self.ids@[i] <= self.last_id
        &&& self.ids@.no_duplicates()
    }

    pub fn new() -> (timers: Timers)
        ensures
            timers.ids@ == Seq::<u64>::empty(),
            timers.last_id == 0,
            timers.valid(),
    {
        Timers { ids: Vec::new(), last_id: 0 }
    }

    /// Starts a timer under a new id.
    pub fn set_interval(&mut self) -> (id: u64)
        requires
            old(self).valid(),
            old(self).last_id < u64::MAX,
        ensures
            id == old(self).last_id + 1,
            final(self).last_id == id,
            final(self).ids@ == old(self).ids@.push(id),
            final(self).valid(),
    {
        self.last_id = self.last_id + 1;
        self.ids.push(self.last_id);
        self.last_id
    }

    /// Stops the timer of that id.
    pub fn clear_interval(&mut self, id: u64)
        requires
            old(self).valid(),
        ensures
            final(self).ids@ == without(old(self).ids@, id),
            final(self).last_id == old(self).last_id,
            final(self).valid(),
    {
        let ghost keep = other_than(id);
        let ghost all = self.ids@;
        let mut rest: Vec<u64> = Vec::new();
        let mut i: usize = 0;
        proof {
            reveal(Seq::filter);
            assert(all.take(0).filter(keep) =~= seq![]);
        }
        while i < self.ids.len()
            invariant
                i <= self.ids@.len(),
                self.ids@ == all,
                self.last_id == old(self).last_id,
                all == old(self).ids@,
                old(self).valid(),
                keep == other_than(id),
                rest@ == all.take(i as int).filter(keep),
                rest@.no_duplicates(),
                forall|j: int|
                    0 <= j < rest@.len() ==> exists|k: int|
                        0 <= k < i && #[trigger] rest@[j] == #[trigger] all[k],
            decreases self.ids@.len() - i,
        {
            proof {
                reveal(Seq::filter);
                assert(all.take(i + 1).drop_last() =~= all.take(i as int));
            }
            let ghost before = rest@;
            if self.ids[i] != id {
                rest.push(self.ids[i]);
                assert forall|j: int| 0 <= j < rest@.len() implies exists|k: int|
                    0 <= k < i + 1 && #[trigger] rest@[j] == #[trigger] all[k] by {
                    if j < before.len() {
                        let k = choose|k: int| 0 <= k < i && before[j] == #[trigger] all[k];
                        assert(rest@[j] == all[k]);
                    } else {
                        assert(rest@[j] == all[i as int]);
                    }
                }
            }
            i = i + 1;
        }
        assert(all.take(i as int) =~= all);
        self.ids = rest;
    }
}

/// A timer that was stopped is gone, and all others still run, in their order.
pub proof fn law_stopped_timers_are_gone(ids: Seq<u64>, id: u64, other: u64)
    ensures
        !without(ids, id).contains(id),
        other != id ==> without(ids, id).contains(other) == ids.contains(other),
    decreases ids.len(),
{
    reveal(Seq::filter);
    let keep = other_than(id);
    if ids.len() > 0 {
        let front = ids.drop_last();
        law_stopped_timers_are_gone(front, id, other);
        let kept = without(ids, id);
        let fk = without(front, id);
        assert(ids =~= front.push(ids.last()));
        if keep(ids.last()) {
            assert(kept =~= fk.push(ids.last()));
            if kept.contains(id) {
                let i = choose|i: int| 0 <= i < kept.len() && kept[i] == id;
                assert(fk[i] == id);
            }
            if other != id {
                if ids.contains(other) {
                    let i = choose|i: int| 0 <= i < ids.len() && ids[i] == other;
                    if i < front.len() {
                        assert(front[i] == other);
                        let k = choose|k: int| 0 <= k < fk.len() && fk[k] == other;
                        assert(kept[k] == other);
                    } else {
                        assert(kept[kept.len() - 1] == other);
                    }
                }
                if kept.contains(other) {
                    let i = choose|i: int| 0 <= i < kept.len() && kept[i] == other;
                    if i < fk.len() {
                        assert(fk[i] == other);
                        let k = choose|k: int| 0 <= k < front.len() && front[k] == other;
                        assert(ids[k] == other);
                    } else {
                        assert(ids[ids.len() - 1] == other);
                    }
                }
            }
        } else {
            assert(kept =~= fk);
            if other != id {
                if ids.contains(other) {
                    let i = choose|i: int| 0 <= i < ids.len() && ids[i] == other;
                    assert(front[i] == other);
                }
                if front.contains(other) {
                    let i = choose|i: int| 0 <= i < front.len() && front[i] == other;
                    assert(ids[i] == other);
                }
            }
        }
    }
}

/// Time between two ticks, in milliseconds, as the configuration has it.
pub open spec fn tick_time(update_ms: Option<u64>) -> u64 {
    match update_ms {
        Some(v) => if v > LEAST_UPDATE_MS {
            v
        } else {
            LEAST_UPDATE_MS
        },
        None => DEFAULT_UPDATE_MS,
    }
}

/// Whether a timer's tick is due.
pub open spec fn due_at(now: u64, last: Option<u64>, ms: u64) -> bool {
    match last {
        Some(t) => since(now, t) >= ms,
        None => ms == 0,
    }
}

/// Time between two ticks, in milliseconds, as the configuration has it.
pub fn pump_ms(update_ms: Option<u64>) -> (ms: u64)
    ensures
        ms == tick_time(update_ms),
        ms == match update_ms {
            Some(v) => if v > LEAST_UPDATE_MS {
                v
            } else {
                LEAST_UPDATE_MS
            },
            None => DEFAULT_UPDATE_MS,
        },
{
    match update_ms {
        Some(v) => if v > LEAST_UPDATE_MS {
            v
        } else {
            LEAST_UPDATE_MS
        },
        None => DEFAULT_UPDATE_MS,
    }
}

/// Whether a timer's tick is due at `now`, given when it last was; times are in
/// milliseconds. A timer that is seen for the first time starts to count.
pub fn is_due(now: u64, last: Option<u64>, ms: u64) -> (due: bool)
    ensures
        due == due_at(now, last, ms),
        due == (since(
            now,
            match last {
                Some(t) => t,
                None => now,
            },
        ) >= ms),
{
    match last {
        Some(t) => elapsed(now, t) >= ms,
        None => elapsed(now, now) >= ms,
    }
}

/// What happens to the plugin while the host runs.
#[derive(Debug, Clone, Copy, PartialEq, Eq, Structural)]
pub enum Incident {
    DeviceConnected,
    /// Another theme is chosen in the panel.
    ApplyTheme,
    /// A transcript is broadcast.
    Transcript,
    /// The host's mute is switched.
    MuteChanged,
    Snapshot,
}

/// An incident and its time after the start, in milliseconds.
#[derive(Debug, Clone, Copy, PartialEq, Eq, Structural)]
pub struct Entry {
    pub at_ms: u64,
    pub what: Incident,
}

/// What happens while the host runs; transcript and snapshot only where asked for.
pub open spec fn schedule(wdis: bool, snapshot: bool) -> Seq<Entry> {
    seq![
        Entry { at_ms: 1500, what: Incident::DeviceConnected },
        Entry { at_ms: 4000, what: Incident::ApplyTheme },
    ] + (if wdis {
        seq![Entry { at_ms: 5000, what: Incident::Transcript }]
    } else {
        seq![]
    }) + seq![Entry { at_ms: 6000, what: Incident::MuteChanged }] + (if snapshot {
        seq![Entry { at_ms: 7000, what: Incident::Snapshot }]
    } else {
        seq![]
    })
}

/// What happens while the host runs, in the order of time.
pub fn timeline(wdis: bool, snapshot: bool) -> (list: Vec<Entry>)
    ensures
        list@ == schedule(wdis, snapshot),
        forall|i: int, j: int|
            0 <= i < j < list@.len() ==> (#[trigger] list@[i]).at_ms < (#[trigger] list@[j]).at_ms,
{
    let mut list: Vec<Entry> = Vec::new();
    list.push(Entry { at_ms: 1500, what: Incident::DeviceConnected });
    list.push(Entry { at_ms: 4000, what: Incident::ApplyTheme });
    if wdis {
        list.push(Entry { at_ms: 5000, what: Incident::Transcript });
    }
    list.push(Entry { at_ms: 6000, what: Incident::MuteChanged });
    if snapshot {
        list.push(Entry { at_ms: 7000, what: Incident::Snapshot });
    }
    assert(list@ =~= schedule(wdis, snapshot));
    list
}

} // verus!
