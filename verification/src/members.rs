//! The members that a theme may declare, and the values that they are given.
//!
//! Every member is optional. Only those that a theme declares are touched.

use vstd::prelude::*;

use crate::protocol::{Ev, Real, StatePayload};
use crate::text::{decimal, joined2, joined3, number, opt_text, texts};
use crate::ui::lists;

verus! {

/// The value of a property.
#[derive(Debug, PartialEq, Eq)]
pub enum Given<Text = String> {
    Number(Real),
    Whole(u64),
    Flag(bool),
    Words(Text),
}

/// A property and its value.
#[derive(Debug, PartialEq, Eq)]
pub struct Member<Text = String> {
    pub name: Text,
    pub value: Given<Text>,
}

impl View for Member {
    type V = Member<Seq<char>>;

    open spec fn view(&self) -> Member<Seq<char>> {
        Member {
            name: self.name@,
            value: match self.value {
                Given::Number(r) => Given::Number(r),
                Given::Whole(n) => Given::Whole(n),
                Given::Flag(b) => Given::Flag(b),
                Given::Words(t) => Given::Words(t@),
            },
        }
    }
}

pub open spec fn members(list: Seq<Member>) -> Seq<Member<Seq<char>>> {
    list.map_values(|m: Member| m@)
}

/// What is derived from a frame and the smoothed level.
#[derive(Debug, PartialEq, Eq)]
pub struct Derived<Text = String> {
    /// The smoothed level, and the same in whole percent.
    pub smooth: Real,
    pub percent: Real,
    /// The path of the level's arc.
    pub arc_path: Text,
    /// The sample rate in kilohertz with one decimal, and the queue in whole
    /// milliseconds.
    pub khz: Text,
    pub queued: Text,
}

impl View for Derived {
    type V = Derived<Seq<char>>;

    open spec fn view(&self) -> Derived<Seq<char>> {
        Derived {
            smooth: self.smooth,
            percent: self.percent,
            arc_path: self.arc_path@,
            khz: self.khz@,
            queued: self.queued@,
        }
    }
}

pub open spec fn member(name: Seq<char>, value: Given<Seq<char>>) -> Member<Seq<char>> {
    Member { name, value }
}

/// The line that sums up a stream; empty without one.
pub open spec fn info_line(st: StatePayload<Seq<char>>, d: Derived<Seq<char>>) -> Seq<char> {
    if st.sample_rate == 0 {
        seq![]
    } else {
        d.khz + "kHz · "@ + decimal(st.channels as nat) + "ch · q"@ + d.queued + "ms"@
    }
}

/// All members that a frame gives a value to.
pub open spec fn state_members(st: StatePayload<Seq<char>>, d: Derived<Seq<char>>) -> Seq<
    Member<Seq<char>>,
> {
    seq![
        member("input-level"@, Given::Number(st.level)),
        member("processed-level"@, Given::Number(st.processed)),
        member("smooth-level"@, Given::Number(d.smooth)),
        member("level-percent"@, Given::Number(d.percent)),
        member("muted"@, Given::Flag(st.muted)),
        member("streaming"@, Given::Flag(st.streaming)),
        member("monitoring"@, Given::Flag(st.monitoring)),
        member("sample-rate"@, Given::Whole(st.sample_rate as u64)),
        member("channels"@, Given::Whole(st.channels as u64)),
        member("queued-ms"@, Given::Number(st.queued_ms)),
        member("session-seconds"@, Given::Whole(st.session_seconds)),
        member("session-text"@, Given::Words(st.session_text)),
        member("device-label"@, Given::Words(st.device_label)),
        member("device-mode"@, Given::Words(st.device_mode)),
        member("info-text"@, Given::Words(info_line(st, d))),
        member("arc-path"@, Given::Words(d.arc_path)),
    ]
}

/// All members that the smoothed level gives a value to.
pub open spec fn smooth_members(
    smooth: Real,
    percent: Real,
    arc: Seq<char>,
    bars: Seq<char>,
) -> Seq<Member<Seq<char>>> {
    seq![
        member("smooth-level"@, Given::Number(smooth)),
        member("level-percent"@, Given::Number(percent)),
        member("arc-path"@, Given::Words(arc)),
        member("bars-path"@, Given::Words(bars)),
    ]
}

/// The members among `all` that a theme declares.
pub open spec fn declared(all: Seq<Member<Seq<char>>>, props: Seq<Seq<char>>) -> Seq<
    Member<Seq<char>>,
> {
    all.filter(|m: Member<Seq<char>>| props.contains(m.name))
}

/// Only members that the theme declares are given a value, and each of them that
/// has one gets it.
pub proof fn law_only_declared_members_are_touched(
    all: Seq<Member<Seq<char>>>,
    props: Seq<Seq<char>>,
    m: Member<Seq<char>>,
)
    ensures
        declared(all, props).contains(m) <==> all.contains(m) && props.contains(m.name),
{
    broadcast use vstd::seq_lib::group_filter_ensures;

    let keep = |m: Member<Seq<char>>| props.contains(m.name);
    let kept = declared(all, props);
    if all.contains(m) && props.contains(m.name) {
        let i = choose|i: int| 0 <= i < all.len() && all[i] == m;
        assert(keep(all[i]));
    }
    if kept.contains(m) {
        let i = choose|i: int| 0 <= i < kept.len() && kept[i] == m;
        assert(keep(kept[i]));
        lemma_kept_is_from(all, keep, i);
    }
}

proof fn lemma_kept_is_from(
    all: Seq<Member<Seq<char>>>,
    keep: spec_fn(Member<Seq<char>>) -> bool,
    i: int,
)
    requires
        0 <= i < all.filter(keep).len(),
    ensures
        all.contains(all.filter(keep)[i]),
    decreases all.len(),
{
    reveal(Seq::filter);
    let front = all.drop_last();
    let kept = all.filter(keep);
    if all.len() > 0 {
        if i < front.filter(keep).len() {
            lemma_kept_is_from(front, keep, i);
            let j = choose|j: int| 0 <= j < front.len() && front[j] == front.filter(keep)[i];
            assert(all[j] == kept[i]);
        } else {
            assert(kept[i] == all.last());
            assert(all[all.len() - 1] == kept[i]);
        }
    }
}

/// Leaves only the members that a theme declares.
pub fn keep_declared(all: Vec<Member>, props: &Vec<String>) -> (kept: Vec<Member>)
    ensures
        members(kept@) == declared(members(all@), texts(props@)),
{
    let ghost whole = members(all@);
    let ghost keep = |m: Member<Seq<char>>| texts(props@).contains(m.name);
    let mut rest = all;
    let mut kept: Vec<Member> = Vec::new();
    let n: usize = rest.len();
    let mut i: usize = 0;
    proof {
        reveal(Seq::filter);
        assert(members(kept@) =~= whole.take(0).filter(keep));
    }
    while i < n
        invariant
            i <= n == whole.len(),
            rest@.len() == n - i,
            keep == (|m: Member<Seq<char>>| texts(props@).contains(m.name)),
            members(rest@) == whole.skip(i as int),
            members(kept@) == whole.take(i as int).filter(keep),
        decreases n - i,
    {
        let ghost ahead = rest@;
        let m = rest.remove(0);
        proof {
            reveal(Seq::filter);
            assert(rest@ =~= ahead.skip(1));
            assert(members(ahead.skip(1)) =~= members(ahead).skip(1));
            assert(members(rest@) =~= whole.skip(i + 1));
            assert(whole.take(i + 1).drop_last() =~= whole.take(i as int));
            assert(m@ == whole.skip(i as int)[0]);
            assert(whole.take(i + 1).last() == m@);
        }
        let ghost before = members(kept@);
        if lists(props, m.name.as_str()) {
            kept.push(m);
            assert(members(kept@) =~= before.push(m@));
        }
        i = i + 1;
    }
    assert(whole.take(i as int) =~= whole);
    kept
}

fn words(name: &str, text: &str) -> (m: Member)
    ensures
        m@ == member(name@, Given::Words(text@)),
{
    Member { name: name.to_owned(), value: Given::Words(text.to_owned()) }
}

fn amount(name: &str, r: Real) -> (m: Member)
    ensures
        m@ == member(name@, Given::Number(r)),
{
    Member { name: name.to_owned(), value: Given::Number(r) }
}

fn whole(name: &str, n: u64) -> (m: Member)
    ensures
        m@ == member(name@, Given::Whole(n)),
{
    Member { name: name.to_owned(), value: Given::Whole(n) }
}

fn flag(name: &str, b: bool) -> (m: Member)
    ensures
        m@ == member(name@, Given::Flag(b)),
{
    Member { name: name.to_owned(), value: Given::Flag(b) }
}

/// The line that sums up a stream.
pub fn info_text(st: &StatePayload, d: &Derived) -> (line: String)
    ensures
        line@ == info_line(st@, d@),
{
    if st.sample_rate == 0 {
        let empty = String::new();
        assert(empty@ =~= seq![]);
        return empty;
    }
    let mut line = joined2(d.khz.as_str(), "kHz · ");
    line.append(number(st.channels as u64).as_str());
    line.append("ch · q");
    line.append(d.queued.as_str());
    line.append("ms");
    line
}

/// The members of a theme to set for a frame.
pub fn apply_state(props: &Vec<String>, st: &StatePayload, d: &Derived) -> (set: Vec<Member>)
    ensures
        members(set@) == declared(state_members(st@, d@), texts(props@)),
{
    let mut all: Vec<Member> = Vec::new();
    all.push(amount("input-level", st.level));
    all.push(amount("processed-level", st.processed));
    all.push(amount("smooth-level", d.smooth));
    all.push(amount("level-percent", d.percent));
    all.push(flag("muted", st.muted));
    all.push(flag("streaming", st.streaming));
    all.push(flag("monitoring", st.monitoring));
    all.push(whole("sample-rate", st.sample_rate as u64));
    all.push(whole("channels", st.channels as u64));
    all.push(amount("queued-ms", st.queued_ms));
    all.push(whole("session-seconds", st.session_seconds));
    all.push(words("session-text", st.session_text.as_str()));
    all.push(words("device-label", st.device_label.as_str()));
    all.push(words("device-mode", st.device_mode.as_str()));
    all.push(words("info-text", info_text(st, d).as_str()));
    all.push(words("arc-path", d.arc_path.as_str()));
    assert(members(all@) =~= state_members(st@, d@));
    keep_declared(all, props)
}

/// The members of a theme to set for a smoothed level.
pub fn apply_smooth(
    props: &Vec<String>,
    smooth: Real,
    percent: Real,
    arc: &str,
    bars: &str,
) -> (set: Vec<Member>)
    ensures
        members(set@) == declared(smooth_members(smooth, percent, arc@, bars@), texts(props@)),
{
    let mut all: Vec<Member> = Vec::new();
    all.push(amount("smooth-level", smooth));
    all.push(amount("level-percent", percent));
    all.push(words("arc-path", arc));
    all.push(words("bars-path", bars));
    assert(members(all@) =~= smooth_members(smooth, percent, arc@, bars@));
    keep_declared(all, props)
}

/// All members that a transcript gives a value to.
pub open spec fn wdis_members(text: Seq<char>) -> Seq<Member<Seq<char>>> {
    seq![
        member("wdis-text"@, Given::Words(text)),
        member("wdis-visible"@, Given::Flag(true)),
    ]
}

/// All members that the end of a transcript gives a value to.
pub open spec fn wdis_over() -> Seq<Member<Seq<char>>> {
    seq![member("wdis-visible"@, Given::Flag(false))]
}

/// The members of a theme to set when a transcript is shown.
pub fn show_wdis(props: &Vec<String>, text: &str) -> (set: Vec<Member>)
    ensures
        members(set@) == declared(wdis_members(text@), texts(props@)),
        members(set@) == declared(
            seq![
                member("wdis-text"@, Given::Words(text@)),
                member("wdis-visible"@, Given::Flag(true)),
            ],
            texts(props@),
        ),
{
    let mut all: Vec<Member> = Vec::new();
    all.push(words("wdis-text", text));
    all.push(flag("wdis-visible", true));
    assert(members(all@) =~= seq![
        member("wdis-text"@, Given::Words(text@)),
        member("wdis-visible"@, Given::Flag(true)),
    ]);
    keep_declared(all, props)
}

/// The members of a theme to set when the transcript's time is over.
pub fn hide_wdis(props: &Vec<String>) -> (set: Vec<Member>)
    ensures
        members(set@) == declared(wdis_over(), texts(props@)),
        members(set@) == declared(
            seq![member("wdis-visible"@, Given::Flag(false))],
            texts(props@),
        ),
{
    let mut all: Vec<Member> = Vec::new();
    all.push(flag("wdis-visible", false));
    assert(members(all@) =~= seq![member("wdis-visible"@, Given::Flag(false))]);
    keep_declared(all, props)
}

/// What stood in the way of a theme.
#[derive(Debug, PartialEq, Eq)]
pub enum LoadError<Text = String> {
    /// The file could not be read.
    Read(Text),
    /// It does not compile.
    Compile(Text),
    /// No window could be made of it.
    Create(Text),
}

impl View for LoadError {
    type V = LoadError<Seq<char>>;

    open spec fn view(&self) -> LoadError<Seq<char>> {
        match *self {
            LoadError::Read(e) => LoadError::Read(e@),
            LoadError::Compile(e) => LoadError::Compile(e@),
            LoadError::Create(e) => LoadError::Create(e@),
        }
    }
}

pub open spec fn load_message(path: Seq<char>, e: LoadError<Seq<char>>) -> Seq<char> {
    match e {
        LoadError::Read(e) => "cannot read "@ + path + (": "@ + e),
        LoadError::Compile(e) => e,
        LoadError::Create(e) => path + ": "@ + (path + ": create instance: "@ + e),
    }
}

/// The message for a theme that replaces no other and could not be loaded.
pub fn load_error(path: &str, e: &LoadError) -> (text: String)
    ensures
        text@ == load_message(path@, e@),
{
    match e {
        LoadError::Read(e) => {
            let why = joined2(": ", e.as_str());
            joined3("cannot read ", path, why.as_str())
        },
        LoadError::Compile(e) => e.clone(),
        LoadError::Create(_) => {
            let inner = reload_error(path, e);
            joined3(path, ": ", inner.as_str())
        },
    }
}

pub open spec fn reload_message(path: Seq<char>, e: LoadError<Seq<char>>) -> Seq<char> {
    match e {
        LoadError::Read(e) => "cannot read "@ + path + (": "@ + e),
        LoadError::Compile(e) => e,
        LoadError::Create(e) => path + ": create instance: "@ + e,
    }
}

/// The message for a theme that was to replace another and could not be loaded.
/// The other one stays.
pub fn reload_error(path: &str, e: &LoadError) -> (text: String)
    ensures
        text@ == reload_message(path@, e@),
{
    match e {
        LoadError::Read(e) => {
            let why = joined2(": ", e.as_str());
            joined3("cannot read ", path, why.as_str())
        },
        LoadError::Compile(e) => e.clone(),
        LoadError::Create(e) => joined3(path, ": create instance: ", e.as_str()),
    }
}

/// What is next once a theme was tried.
#[derive(Debug, Clone, Copy, PartialEq, Eq, Structural)]
pub enum LoadNext {
    Show,
    /// The built-in theme stands in.
    TryBuiltin,
    GiveUp,
}

/// What is next once a theme was tried, `builtin` telling that it was the built-in
/// one: a theme that failed is replaced by the built-in one.
pub open spec fn next_load(failed: bool, builtin: bool) -> LoadNext {
    if !failed {
        LoadNext::Show
    } else if builtin {
        LoadNext::GiveUp
    } else {
        LoadNext::TryBuiltin
    }
}

/// What is next once a theme was tried.
pub fn after_load(failed: bool, builtin: bool) -> (next: LoadNext)
    ensures
        next == next_load(failed, builtin),
{
    if !failed {
        LoadNext::Show
    } else if builtin {
        LoadNext::GiveUp
    } else {
        LoadNext::TryBuiltin
    }
}

/// The name under which the built-in theme is shown when it stands in for another.
pub fn fallback_name() -> (name: &'static str)
    ensures
        name@ == "ring.slint (built-in fallback)"@,
{
    "ring.slint (built-in fallback)"
}

/// What is reported of the first theme.
pub open spec fn first_report(error: Option<Seq<char>>, fatal: Option<Seq<char>>) -> Option<
    Ev<Seq<char>>,
> {
    match fatal {
        Some(e) => Some(Ev::ThemeError { message: "fatal: cannot load any theme: "@ + e }),
        None => match error {
            Some(message) => Some(Ev::ThemeError { message }),
            None => None,
        },
    }
}

/// What is reported of the first theme, and whether there is a window at all.
/// `error` is the message of the theme that was asked for, `fatal` that of the
/// built-in one where it was tried and failed as well.
pub fn first_load(error: Option<String>, fatal: Option<String>) -> (start: (bool, Option<Ev>))
    ensures
        match start.1 {
            Some(ev) => first_report(opt_text(error), opt_text(fatal)) == Some(ev@),
            None => first_report(opt_text(error), opt_text(fatal)) is None,
        },
        start.0 == fatal is None,
        match start.1 {
            Some(ev) => ev@ == match fatal {
                Some(e) => Ev::ThemeError { message: "fatal: cannot load any theme: "@ + e@ },
                None => Ev::ThemeError { message: error->Some_0@ },
            },
            None => true,
        },
        start.1 is Some == (fatal is Some || error is Some),
{
    match fatal {
        Some(e) => (
            false,
            Some(
                Ev::ThemeError { message: joined2("fatal: cannot load any theme: ", e.as_str()) },
            ),
        ),
        None => match error {
            Some(message) => (true, Some(Ev::ThemeError { message })),
            None => (true, None),
        },
    }
}

} // verus!
