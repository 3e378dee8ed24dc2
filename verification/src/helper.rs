//! The window's process: how it is found and started, what is kept of its output,
//! and how it is brought to an end.

use std::collections::VecDeque;

use vstd::prelude::*;

use crate::protocol::Ev;
use crate::text::{joined3, signed_decimal, signed_text, texts};

verus! {

/// Events that are kept until the next tick; older ones are dropped.
pub const EVENT_CAP: usize = 64;

/// Lines of the error output that are kept.
pub const STDERR_TAIL: usize = 12;

/// Time that the process has to leave, and time between two looks, in
/// milliseconds.
pub const QUIT_GRACE_MS: u64 = 1500;

pub const QUIT_POLL_MS: u64 = 50;

/// The platforms that the process is built for.
#[derive(Debug, Clone, Copy, PartialEq, Eq, Structural)]
pub enum Os {
    Windows,
    Linux,
    Macos,
}

#[derive(Debug, Clone, Copy, PartialEq, Eq, Structural)]
pub enum Arch {
    X86_64,
    Aarch64,
}

impl Os {
    pub open spec fn label(self) -> Seq<char> {
        match self {
            Os::Windows => "windows"@,
            Os::Linux => "linux"@,
            Os::Macos => "macos"@,
        }
    }

    pub fn name(self) -> (word: &'static str)
        ensures
            word@ == self.label(),
    {
        match self {
            Os::Windows => "windows",
            Os::Linux => "linux",
            Os::Macos => "macos",
        }
    }
}

impl Arch {
    pub open spec fn label(self) -> Seq<char> {
        match self {
            Arch::X86_64 => "x86_64"@,
            Arch::Aarch64 => "aarch64"@,
        }
    }

    pub fn name(self) -> (word: &'static str)
        ensures
            word@ == self.label(),
    {
        match self {
            Arch::X86_64 => "x86_64",
            Arch::Aarch64 => "aarch64",
        }
    }
}

/// File name of the program.
pub open spec fn exe_name(os: Os, arch: Arch) -> Seq<char> {
    "floating-helper-"@ + os.label() + ("-"@ + arch.label() + (if os == Os::Windows {
        ".exe"@
    } else {
        ""@
    }))
}

/// File name of the program for a platform.
pub fn helper_exe_name(os: Os, arch: Arch) -> (name: String)
    ensures
        name@ == exe_name(os, arch),
{
    let end = if os == Os::Windows {
        ".exe"
    } else {
        ""
    };
    let tail = joined3("-", arch.name(), end);
    joined3("floating-helper-", os.name(), tail.as_str())
}

/// Where the program is taken from.
#[derive(Debug, Clone, Copy, PartialEq, Eq, Structural)]
pub enum ExeChoice {
    /// The file that the environment names.
    Override,
    /// The directory `bin` of the plugin.
    Bin,
    /// The plugin's directory itself.
    Flat,
    /// It is nowhere.
    Missing,
}

/// Where the program is taken from, given which of the files are there.
pub open spec fn exe_choice(named: bool, bin: bool, flat: bool) -> ExeChoice {
    if named {
        ExeChoice::Override
    } else if bin {
        ExeChoice::Bin
    } else if flat {
        ExeChoice::Flat
    } else {
        ExeChoice::Missing
    }
}

/// Where the program is taken from, given which of the files are there. A file
/// that the environment names comes first, if it exists.
pub fn helper_exe_path(named: bool, bin: bool, flat: bool) -> (choice: ExeChoice)
    ensures
        choice == exe_choice(named, bin, flat),
        choice == if named {
            ExeChoice::Override
        } else if bin {
            ExeChoice::Bin
        } else if flat {
            ExeChoice::Flat
        } else {
            ExeChoice::Missing
        },
{
    if named {
        ExeChoice::Override
    } else if bin {
        ExeChoice::Bin
    } else if flat {
        ExeChoice::Flat
    } else {
        ExeChoice::Missing
    }
}

/// The error when the program is nowhere.
pub open spec fn missing_text(dir: Seq<char>) -> Seq<char> {
    "helper executable not found under "@ + dir + " (bin/floating-helper-<os>-<arch>)"@
}

/// The error when the program is nowhere.
pub fn missing_exe_text(dir: &str) -> (text: String)
    ensures
        text@ == missing_text(dir@),
        text@ == "helper executable not found under "@ + dir@
            + " (bin/floating-helper-<os>-<arch>)"@,
{
    joined3("helper executable not found under ", dir, " (bin/floating-helper-<os>-<arch>)")
}

/// The arguments that start the process with a theme and, unless both coordinates
/// are negative, a position.
pub open spec fn spawn_args(theme: Seq<char>, x: i32, y: i32) -> Seq<Seq<char>> {
    seq!["--theme"@, theme] + (if x < 0 && y < 0 {
        seq![]
    } else {
        seq!["--x"@, signed_decimal(x as int), "--y"@, signed_decimal(y as int)]
    })
}

/// The arguments that start the process.
pub fn helper_args(theme: &str, x: i32, y: i32) -> (args: Vec<String>)
    ensures
        texts(args@) == spawn_args(theme@, x, y),
{
    let mut args: Vec<String> = Vec::new();
    args.push("--theme".to_owned());
    args.push(theme.to_owned());
    if !(x < 0 && y < 0) {
        args.push("--x".to_owned());
        args.push(signed_text(x));
        args.push("--y".to_owned());
        args.push(signed_text(y));
    }
    assert(texts(args@) =~= spawn_args(theme@, x, y));
    args
}

/// The last `cap` items.
pub open spec fn recent<T>(items: Seq<T>, cap: nat) -> Seq<T> {
    if items.len() > cap {
        items.skip(items.len() - cap)
    } else {
        items
    }
}

/// Events, as contracts speak of them.
pub open spec fn evs(items: Seq<Ev>) -> Seq<Ev<Seq<char>>> {
    items.map_values(|e: Ev| e@)
}

/// What is kept of a running process.
#[derive(Debug)]
pub struct HelperProc {
    pub events: VecDeque<Ev>,
    pub stderr_tail: VecDeque<String>,
    pub dead: bool,
}

/// The same, as contracts speak of it.
#[verifier::ext_equal]
pub struct HelperView {
    pub events: Seq<Ev<Seq<char>>>,
    pub stderr_tail: Seq<Seq<char>>,
    pub dead: bool,
}

impl View for HelperProc {
    type V = HelperView;

    open spec fn view(&self) -> HelperView {
        HelperView {
            events: evs(self.events@),
            stderr_tail: texts(self.stderr_tail@),
            dead: self.dead,
        }
    }
}

impl HelperView {
    /// What is kept stays bounded.
    pub open spec fn valid(self) -> bool {
        self.events.len() <= EVENT_CAP && self.stderr_tail.len() <= STDERR_TAIL
    }

    pub open spec fn with_event(self, ev: Ev<Seq<char>>) -> HelperView {
        HelperView { events: recent(self.events.push(ev), EVENT_CAP as nat), ..self }
    }

    /// The same once it was looked whether the process is gone.
    pub open spec fn found_dead(self, exited: bool) -> HelperView {
        HelperView { dead: self.dead || exited, ..self }
    }

    /// The same without the events.
    pub open spec fn drained(self) -> HelperView {
        HelperView { events: seq![], ..self }
    }

    pub open spec fn with_line(self, line: Seq<char>) -> HelperView {
        HelperView { stderr_tail: recent(self.stderr_tail.push(line), STDERR_TAIL as nat), ..self }
    }
}

impl HelperProc {
    /// A process that was just started.
    pub fn new() -> (helper: HelperProc)
        ensures
            helper@ == (HelperView { events: seq![], stderr_tail: seq![], dead: false }),
            helper@.valid(),
    {
        let helper = HelperProc {
            events: VecDeque::new(),
            stderr_tail: VecDeque::new(),
            dead: false,
        };
        assert(helper@ =~= (HelperView { events: seq![], stderr_tail: seq![], dead: false }));
        helper
    }

    /// Keeps an event for the next tick.
    pub fn queue_event(&mut self, ev: Ev)
        requires
            old(self)@.valid(),
        ensures
            final(self)@ == old(self)@.with_event(ev@),
            final(self)@.valid(),
    {
        if self.events.len() >= EVENT_CAP {
            let _dropped = self.events.pop_front();
        }
        self.events.push_back(ev);
        assert(self@.events =~= recent(old(self)@.events.push(ev@), EVENT_CAP as nat));
        assert(self@ =~= old(self)@.with_event(ev@));
    }

    /// Keeps a line of the error output.
    pub fn note_stderr(&mut self, line: String)
        requires
            old(self)@.valid(),
        ensures
            final(self)@ == old(self)@.with_line(line@),
            final(self)@.valid(),
    {
        if self.stderr_tail.len() >= STDERR_TAIL {
            let _dropped = self.stderr_tail.pop_front();
        }
        self.stderr_tail.push_back(line);
        assert(self@.stderr_tail =~= recent(
            old(self)@.stderr_tail.push(line@),
            STDERR_TAIL as nat,
        ));
        assert(self@ =~= old(self)@.with_line(line@));
    }

    /// Takes the events that were kept, in the order in which they came.
    pub fn drain_events(&mut self) -> (taken: Vec<Ev>)
        ensures
            evs(taken@) == old(self)@.events,
            final(self)@ == old(self)@.drained(),
            final(self)@ == (HelperView { events: seq![], ..old(self)@ }),
    {
        let mut taken: Vec<Ev> = Vec::new();
        assert(evs(taken@) + self@.events =~= old(self)@.events);
        while self.events.len() > 0
            invariant
                evs(taken@) + self@.events == old(self)@.events,
                self@.stderr_tail == old(self)@.stderr_tail,
                self@.dead == old(self)@.dead,
            decreases self.events@.len(),
        {
            if let Some(ev) = self.events.pop_front() {
                taken.push(ev);
                assert(evs(taken@) + self@.events =~= old(self)@.events);
            }
        }
        assert(evs(taken@) =~= old(self)@.events);
        assert(self@ =~= (HelperView { events: seq![], ..old(self)@ }));
        taken
    }

    /// The lines of the error output that were kept.
    pub fn stderr_snapshot(&self) -> (lines: Vec<String>)
        ensures
            texts(lines@) == self@.stderr_tail,
    {
        let mut lines: Vec<String> = Vec::new();
        let mut i: usize = 0;
        while i < self.stderr_tail.len()
            invariant
                i <= self.stderr_tail@.len(),
                texts(lines@) == self@.stderr_tail.take(i as int),
            decreases self.stderr_tail@.len() - i,
        {
            let line = self.stderr_tail[i].clone();
            let ghost before = texts(lines@);
            lines.push(line);
            assert(texts(lines@) =~= before.push(line@));
            i = i + 1;
            assert(before.push(line@) =~= self@.stderr_tail.take(i as int));
        }
        assert(texts(lines@) =~= self@.stderr_tail);
        lines
    }

    /// One of the channels to the process has closed.
    pub fn channel_closed(&mut self)
        ensures
            final(self)@ == old(self)@.found_dead(true),
            final(self)@ == (HelperView { dead: true, ..old(self)@ }),
    {
        self.dead = true;
    }

    /// Whether the process is gone. `exited` says that it was seen to have ended.
    /// Once gone it stays so.
    pub fn is_dead(&mut self, exited: bool) -> (dead: bool)
        ensures
            final(self)@ == old(self)@.found_dead(exited),
            dead == final(self)@.dead,
            dead == (old(self)@.dead || exited),
            final(self)@ == (HelperView { dead, ..old(self)@ }),
    {
        if exited {
            self.dead = true;
        }
        self.dead
    }
}

/// A process after a row of events, each queued behind the others.
pub open spec fn queued(h: HelperView, items: Seq<Ev<Seq<char>>>) -> HelperView
    decreases items.len(),
{
    if items.len() == 0 {
        h
    } else {
        queued(h, items.drop_last()).with_event(items.last())
    }
}

/// However many events come between two ticks, the most recent ones are there, in
/// order, and never more than [`EVENT_CAP`].
pub proof fn law_recent_events_are_kept(h: HelperView, items: Seq<Ev<Seq<char>>>)
    requires
        h.valid(),
    ensures
        queued(h, items).events == recent(h.events + items, EVENT_CAP as nat),
        queued(h, items).events.len() <= EVENT_CAP,
    decreases items.len(),
{
    if items.len() > 0 {
        law_recent_events_are_kept(h, items.drop_last());
        assert(h.events + items =~= (h.events + items.drop_last()).push(items.last()));
        assert(queued(h, items).events =~= recent(h.events + items, EVENT_CAP as nat));
    } else {
        assert(h.events + items =~= h.events);
    }
}

/// A process after a row of lines on its error output.
pub open spec fn noted(h: HelperView, lines: Seq<Seq<char>>) -> HelperView
    decreases lines.len(),
{
    if lines.len() == 0 {
        h
    } else {
        noted(h, lines.drop_last()).with_line(lines.last())
    }
}

/// However much a process writes to its error output, the last lines are there,
/// and never more than [`STDERR_TAIL`].
pub proof fn law_last_lines_are_kept(h: HelperView, lines: Seq<Seq<char>>)
    requires
        h.valid(),
    ensures
        noted(h, lines).stderr_tail == recent(h.stderr_tail + lines, STDERR_TAIL as nat),
        noted(h, lines).stderr_tail.len() <= STDERR_TAIL,
    decreases lines.len(),
{
    if lines.len() > 0 {
        law_last_lines_are_kept(h, lines.drop_last());
        assert(h.stderr_tail + lines =~= (h.stderr_tail + lines.drop_last()).push(lines.last()));
        assert(noted(h, lines).stderr_tail =~= recent(h.stderr_tail + lines, STDERR_TAIL as nat));
    } else {
        assert(h.stderr_tail + lines =~= h.stderr_tail);
    }
}

/// What a look at a process shows.
#[derive(Debug, Clone, Copy, PartialEq, Eq, Structural)]
pub enum Look {
    Exited,
    Running,
    Unknown,
}

/// What to do with a process that was asked to leave.
#[derive(Debug, Clone, Copy, PartialEq, Eq, Structural)]
pub enum QuitStep {
    /// It has left.
    Done,
    /// Look again after this many milliseconds.
    Wait { ms: u64 },
    /// End it.
    Kill,
}

/// What to do with a process that was asked to leave.
pub open spec fn after_quit(look: Look, waited: u64) -> QuitStep {
    match look {
        Look::Exited => QuitStep::Done,
        Look::Running if waited < QUIT_GRACE_MS => QuitStep::Wait { ms: QUIT_POLL_MS },
        _ => QuitStep::Kill,
    }
}

/// What to do with a process that was asked to leave `waited` milliseconds ago: it
/// is given [`QUIT_GRACE_MS`], and no more when nothing can be seen of it.
pub fn quit_step(look: Look, waited: u64) -> (step: QuitStep)
    ensures
        step == after_quit(look, waited),
        step == match look {
            Look::Exited => QuitStep::Done,
            Look::Running if waited < QUIT_GRACE_MS => QuitStep::Wait { ms: QUIT_POLL_MS },
            _ => QuitStep::Kill,
        },
{
    match look {
        Look::Exited => QuitStep::Done,
        Look::Running => if waited < QUIT_GRACE_MS {
            QuitStep::Wait { ms: QUIT_POLL_MS }
        } else {
            QuitStep::Kill
        },
        Look::Unknown => QuitStep::Kill,
    }
}

} // verus!
