//! The command line of the window's process, and its self-test.

use vstd::prelude::*;

use crate::helper::spawn_args;
use crate::protocol::{Cmd, Real, StatePayload};
use crate::text::{decimal, is_digit, lemma_decimal_value, lemma_signed_round_trip, opt_text};
use crate::text::{joined2, parse_i32, same_text, signed_decimal, spelled_i32, texts};

verus! {

/// What the process is started for.
#[derive(Debug, PartialEq, Eq)]
pub enum Mode<Text = String> {
    /// Print the version.
    Version,
    /// Check whether a theme compiles.
    CompileCheck { path: Text },
    /// Show the window.
    Run {
        theme: Text,
        /// The position; without one the window goes to its default place.
        pos: Option<(i32, i32)>,
        /// Play the self-test and write its pictures under this prefix.
        selftest: Option<Text>,
        /// Leave when the input ends.
        quit_on_eof: bool,
    },
}

impl View for Mode {
    type V = Mode<Seq<char>>;

    open spec fn view(&self) -> Mode<Seq<char>> {
        match *self {
            Mode::Version => Mode::Version,
            Mode::CompileCheck { path } => Mode::CompileCheck { path: path@ },
            Mode::Run { theme, pos, selftest, quit_on_eof } => Mode::Run {
                theme: theme@,
                pos,
                selftest: opt_text(selftest),
                quit_on_eof,
            },
        }
    }
}

/// What stands behind the first occurrence of `key`.
pub open spec fn value_of(args: Seq<Seq<char>>, key: Seq<char>) -> Option<Seq<char>>
    decreases args.len(),
{
    if args.len() == 0 {
        None
    } else if args[0] == key {
        if args.len() > 1 {
            Some(args[1])
        } else {
            None
        }
    } else {
        value_of(args.skip(1), key)
    }
}

/// The window position in the arguments: both coordinates are numbers, and not
/// both are negative.
pub open spec fn position_in(args: Seq<Seq<char>>) -> Option<(i32, i32)> {
    match (value_of(args, "--x"@), value_of(args, "--y"@)) {
        (Some(xs), Some(ys)) => match (spelled_i32(xs), spelled_i32(ys)) {
            (Some(x), Some(y)) => if x < 0 && y < 0 {
                None
            } else {
                Some((x, y))
            },
            _ => None,
        },
        _ => None,
    }
}

/// What the arguments ask for.
pub open spec fn mode_of(args: Seq<Seq<char>>) -> Mode<Seq<char>> {
    if args.contains("--version"@) {
        Mode::Version
    } else if let Some(path) = value_of(args, "--compile-check"@) {
        Mode::CompileCheck { path }
    } else {
        Mode::Run {
            theme: match value_of(args, "--theme"@) {
                Some(theme) => theme,
                None => "ring.slint"@,
            },
            pos: position_in(args),
            selftest: if args.contains("--selftest"@) {
                match value_of(args, "--selftest"@) {
                    Some(prefix) => Some(prefix),
                    None => Some("cfw"@),
                }
            } else {
                None
            },
            quit_on_eof: !args.contains("--selftest"@),
        }
    }
}

pub(crate) fn value(args: &Vec<String>, key: &str) -> (v: Option<String>)
    ensures
        opt_text(v) == value_of(texts(args@), key@),
{
    let ghost all = texts(args@);
    let mut i: usize = 0;
    assert(all.skip(0) =~= all);
    while i < args.len()
        invariant
            i <= args@.len(),
            all == texts(args@),
            value_of(all.skip(i as int), key@) == value_of(all, key@),
        decreases args@.len() - i,
    {
        if same_text(args[i].as_str(), key) {
            if i + 1 < args.len() {
                return Some(args[i + 1].clone());
            }
            return None;
        }
        assert(all.skip(i as int).skip(1) =~= all.skip(i + 1));
        i = i + 1;
    }
    None
}

pub(crate) fn has(args: &Vec<String>, key: &str) -> (yes: bool)
    ensures
        yes == texts(args@).contains(key@),
{
    let ghost all = texts(args@);
    let mut i: usize = 0;
    while i < args.len()
        invariant
            i <= args@.len(),
            all == texts(args@),
            forall|j: int| 0 <= j < i ==> all[j] != key@,
        decreases args@.len() - i,
    {
        if same_text(args[i].as_str(), key) {
            assert(all[i as int] == key@);
            return true;
        }
        i = i + 1;
    }
    false
}

/// What the arguments ask for.
pub fn parse_args(args: &Vec<String>) -> (mode: Mode)
    ensures
        mode@ == mode_of(texts(args@)),
{
    if has(args, "--version") {
        return Mode::Version;
    }
    if let Some(path) = value(args, "--compile-check") {
        return Mode::CompileCheck { path };
    }
    let theme = match value(args, "--theme") {
        Some(theme) => theme,
        None => "ring.slint".to_owned(),
    };
    let pos = match (value(args, "--x"), value(args, "--y")) {
        (Some(xs), Some(ys)) => match (parse_i32(xs.as_str()), parse_i32(ys.as_str())) {
            (Some(x), Some(y)) => if x < 0 && y < 0 {
                None
            } else {
                Some((x, y))
            },
            _ => None,
        },
        _ => None,
    };
    let testing = has(args, "--selftest");
    let selftest = if testing {
        match value(args, "--selftest") {
            Some(prefix) => Some(prefix),
            None => Some("cfw".to_owned()),
        }
    } else {
        None
    };
    Mode::Run { theme, pos, selftest, quit_on_eof: !testing }
}

/// Whether an argument could be taken for an option.
pub open spec fn plain(arg: Seq<char>) -> bool {
    arg.len() > 0 ==> arg[0] != '-'
}

/// The process understands the arguments it is started with: it shows the theme at
/// the position, and takes no other mode.
pub proof fn law_spawn_arguments_are_understood(exe: Seq<char>, theme: Seq<char>, x: i32, y: i32)
    requires
        plain(exe),
        plain(theme),
    ensures
        mode_of(seq![exe] + spawn_args(theme, x, y)) == (Mode::Run {
            theme,
            pos: if x < 0 && y < 0 {
                None
            } else {
                Some((x, y))
            },
            selftest: None,
            quit_on_eof: true,
        }),
{
    let args = seq![exe] + spawn_args(theme, x, y);
    let xs = signed_decimal(x as int);
    let ys = signed_decimal(y as int);
    lemma_number_is_no_option(x as int);
    lemma_number_is_no_option(y as int);
    lemma_signed_round_trip(x);
    lemma_signed_round_trip(y);
    if x < 0 && y < 0 {
        assert(args =~= seq![exe, "--theme"@, theme]);
        lemma_three(exe, theme);
    } else {
        assert(args =~= seq![exe, "--theme"@, theme, "--x"@, xs, "--y"@, ys]);
        lemma_seven(exe, theme, xs, ys);
    }
}

proof fn lemma_number_is_no_option(n: int)
    ensures
        signed_decimal(n).len() > 0,
        signed_decimal(n).len() > 1 ==> signed_decimal(n)[1] != '-',
        signed_decimal(n).len() == 1 ==> signed_decimal(n)[0] != '-',
{
    if n < 0 {
        lemma_decimal_value((-n) as nat);
        let d = decimal((-n) as nat);
        assert(signed_decimal(n)[1] == d[0]);
        assert(is_digit(d[0]));
    } else {
        lemma_decimal_value(n as nat);
        let d = decimal(n as nat);
        assert(is_digit(d[0]));
        if d.len() > 1 {
            assert(is_digit(d[1]));
        }
    }
}

/// Where the values of three arguments are found.
proof fn lemma_three(exe: Seq<char>, theme: Seq<char>)
    requires
        plain(exe),
        plain(theme),
    ensures
        ({
            let args = seq![exe, "--theme"@, theme];
            &&& !args.contains("--version"@)
            &&& !args.contains("--selftest"@)
            &&& value_of(args, "--compile-check"@) is None
            &&& value_of(args, "--theme"@) == Some(theme)
            &&& value_of(args, "--x"@) is None
        }),
{
    let args = seq![exe, "--theme"@, theme];
    reveal_strlit("--theme");
    reveal_strlit("--x");
    reveal_strlit("--y");
    reveal_strlit("--version");
    reveal_strlit("--compile-check");
    reveal_strlit("--selftest");
    assert("--theme"@.len() == 7 && "--version"@.len() == 9 && "--x"@.len() == 3 && "--y"@.len()
        == 3 && "--compile-check"@.len() == 15 && "--selftest"@.len() == 10);
    assert(args.skip(1) =~= seq!["--theme"@, theme]);
    assert(args.skip(1).skip(1) =~= seq![theme]);
    assert(args.skip(1).skip(1).skip(1) =~= seq![]);
    reveal_with_fuel(value_of, 4);
    assert("--theme"@[0] == '-' && "--x"@[0] == '-' && "--version"@[0] == '-'
        && "--compile-check"@[0] == '-' && "--selftest"@[0] == '-');
    assert(exe != "--theme"@ && exe != "--x"@ && exe != "--compile-check"@);
    assert(theme != "--theme"@ && theme != "--x"@ && theme != "--compile-check"@);
    assert("--theme"@ != "--x"@ && "--theme"@ != "--compile-check"@);
}

/// Where the values of seven arguments are found.
proof fn lemma_seven(exe: Seq<char>, theme: Seq<char>, xs: Seq<char>, ys: Seq<char>)
    requires
        plain(exe),
        plain(theme),
        xs.len() > 1 ==> xs[1] != '-',
        xs.len() == 1 ==> xs[0] != '-',
        ys.len() > 1 ==> ys[1] != '-',
        ys.len() == 1 ==> ys[0] != '-',
    ensures
        ({
            let args = seq![exe, "--theme"@, theme, "--x"@, xs, "--y"@, ys];
            &&& !args.contains("--version"@)
            &&& !args.contains("--selftest"@)
            &&& value_of(args, "--compile-check"@) is None
            &&& value_of(args, "--theme"@) == Some(theme)
            &&& value_of(args, "--x"@) == Some(xs)
            &&& value_of(args, "--y"@) == Some(ys)
        }),
{
    let args = seq![exe, "--theme"@, theme, "--x"@, xs, "--y"@, ys];
    reveal_strlit("--theme");
    reveal_strlit("--x");
    reveal_strlit("--y");
    reveal_strlit("--version");
    reveal_strlit("--compile-check");
    reveal_strlit("--selftest");
    assert("--theme"@.len() == 7 && "--version"@.len() == 9 && "--x"@.len() == 3 && "--y"@.len()
        == 3 && "--compile-check"@.len() == 15 && "--selftest"@.len() == 10);
    let a1 = args.skip(1);
    let a2 = a1.skip(1);
    let a3 = a2.skip(1);
    let a4 = a3.skip(1);
    let a5 = a4.skip(1);
    let a6 = a5.skip(1);
    assert(a1 =~= seq!["--theme"@, theme, "--x"@, xs, "--y"@, ys]);
    assert(a2 =~= seq![theme, "--x"@, xs, "--y"@, ys]);
    assert(a3 =~= seq!["--x"@, xs, "--y"@, ys]);
    assert(a4 =~= seq![xs, "--y"@, ys]);
    assert(a5 =~= seq!["--y"@, ys]);
    assert(a6 =~= seq![ys]);
    assert(a6.skip(1) =~= seq![]);
    reveal_with_fuel(value_of, 8);
    assert("--theme"@[1] == '-' && "--x"@[1] == '-' && "--y"@[1] == '-' && "--version"@[1] == '-'
        && "--compile-check"@[1] == '-' && "--selftest"@[1] == '-');
    assert("--theme"@[0] == '-' && "--x"@[0] == '-' && "--y"@[0] == '-' && "--version"@[0] == '-'
        && "--compile-check"@[0] == '-' && "--selftest"@[0] == '-');
    assert("--x"@ != "--y"@) by {
        assert("--x"@[2] != "--y"@[2]);
    }
    assert(exe != "--x"@ && exe != "--y"@ && exe != "--theme"@ && exe != "--compile-check"@);
    assert(theme != "--x"@ && theme != "--y"@ && theme != "--compile-check"@);
    assert(xs != "--y"@ && xs != "--compile-check"@ && xs != "--version"@ && xs != "--selftest"@);
    assert(ys != "--compile-check"@ && ys != "--version"@ && ys != "--selftest"@);
    assert("--theme"@ != "--x"@ && "--theme"@ != "--y"@ && "--theme"@ != "--compile-check"@);
    assert("--x"@ != "--compile-check"@ && "--y"@ != "--compile-check"@);
    assert forall|i: int| 0 <= i < args.len() implies args[i] != "--version"@ && args[i]
        != "--selftest"@ by {}
}

/// The numbers that the self-test shows.
#[derive(Debug, Clone, Copy, PartialEq, Eq, Structural)]
pub struct SelftestLevels {
    pub level: Real,
    pub processed: Real,
    /// The level while muted.
    pub quiet: Real,
    pub zero: Real,
    pub queued_ms: Real,
}

/// A command of the self-test and the time to wait before it, in milliseconds.
#[derive(Debug, PartialEq, Eq)]
pub struct Step<Text = String> {
    pub wait_ms: u64,
    pub cmd: Cmd<Text>,
}

impl View for Step {
    type V = Step<Seq<char>>;

    open spec fn view(&self) -> Step<Seq<char>> {
        Step { wait_ms: self.wait_ms, cmd: self.cmd@ }
    }
}

pub open spec fn steps(list: Seq<Step>) -> Seq<Step<Seq<char>>> {
    list.map_values(|s: Step| s@)
}

pub open spec fn step(wait_ms: u64, cmd: Cmd<Seq<char>>) -> Step<Seq<char>> {
    Step { wait_ms, cmd }
}

/// The state of the self-test while a device streams.
pub open spec fn streaming_state(n: SelftestLevels) -> StatePayload<Seq<char>> {
    StatePayload {
        level: n.level,
        processed: n.processed,
        muted: false,
        streaming: true,
        monitoring: false,
        sample_rate: 48000,
        channels: 1,
        queued_ms: n.queued_ms,
        session_seconds: 754,
        session_text: "12:34"@,
        device_label: "MicYou Mobile"@,
        device_mode: "wifi"@,
    }
}

pub open spec fn idle_state(n: SelftestLevels) -> StatePayload<Seq<char>> {
    StatePayload {
        level: n.zero,
        processed: n.zero,
        muted: false,
        streaming: false,
        session_seconds: 0,
        session_text: "00:00"@,
        device_label: seq![],
        device_mode: seq![],
        ..streaming_state(n)
    }
}

/// The self-test: a picture while streaming, one while muted and one while idle,
/// and with `wdis` a transcript on the first.
pub open spec fn script(prefix: Seq<char>, wdis: bool, n: SelftestLevels) -> Seq<Step<Seq<char>>> {
    seq![step(0, Cmd::State(streaming_state(n)))] + (if wdis {
        seq![
            step(
                300,
                Cmd::Wdis { text: "Hello everyone, let's start the meeting."@, hold_ms: 5000 },
            ),
        ]
    } else {
        seq![]
    }) + seq![
        step(600, Cmd::Snapshot { path: prefix + "-stream.png"@ }),
        step(
            600,
            Cmd::State(StatePayload { muted: true, level: n.quiet, ..streaming_state(n) }),
        ),
        step(400, Cmd::Snapshot { path: prefix + "-muted.png"@ }),
        step(600, Cmd::State(idle_state(n))),
        step(400, Cmd::Snapshot { path: prefix + "-idle.png"@ }),
        step(300, Cmd::Quit),
    ]
}

fn streaming(n: SelftestLevels, muted: bool, level: Real) -> (state: StatePayload)
    ensures
        state@ == (StatePayload { muted, level, ..streaming_state(n) }),
{
    StatePayload {
        level,
        processed: n.processed,
        muted,
        streaming: true,
        monitoring: false,
        sample_rate: 48000,
        channels: 1,
        queued_ms: n.queued_ms,
        session_seconds: 754,
        session_text: "12:34".to_owned(),
        device_label: "MicYou Mobile".to_owned(),
        device_mode: "wifi".to_owned(),
    }
}

fn idle(n: SelftestLevels) -> (state: StatePayload)
    ensures
        state@ == idle_state(n),
{
    let mut state = streaming(n, false, n.zero);
    state.processed = n.zero;
    state.streaming = false;
    state.session_seconds = 0;
    state.session_text = "00:00".to_owned();
    state.device_label = String::new();
    state.device_mode = String::new();
    assert(state.device_label@ =~= seq![]);
    assert(state.device_mode@ =~= seq![]);
    state
}

/// The commands of the self-test.
pub fn selftest_feeder(prefix: &str, wdis: bool, n: SelftestLevels) -> (list: Vec<Step>)
    ensures
        steps(list@) == script(prefix@, wdis, n),
{
    let mut list: Vec<Step> = Vec::new();
    list.push(Step { wait_ms: 0, cmd: Cmd::State(streaming(n, false, n.level)) });
    if wdis {
        list.push(
            Step {
                wait_ms: 300,
                cmd: Cmd::Wdis {
                    text: "Hello everyone, let's start the meeting.".to_owned(),
                    hold_ms: 5000,
                },
            },
        );
    }
    list.push(Step { wait_ms: 600, cmd: Cmd::Snapshot { path: joined2(prefix, "-stream.png") } });
    list.push(Step { wait_ms: 600, cmd: Cmd::State(streaming(n, true, n.quiet)) });
    list.push(Step { wait_ms: 400, cmd: Cmd::Snapshot { path: joined2(prefix, "-muted.png") } });
    list.push(Step { wait_ms: 600, cmd: Cmd::State(idle(n)) });
    list.push(Step { wait_ms: 400, cmd: Cmd::Snapshot { path: joined2(prefix, "-idle.png") } });
    list.push(Step { wait_ms: 300, cmd: Cmd::Quit });
    assert(steps(list@) =~= script(prefix@, wdis, n));
    list
}

} // verus!
