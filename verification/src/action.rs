//! What the plugin asks of the world around it.
//!
//! The decisions of this library are handed out as lists of actions, to be
//! performed in order by whoever holds the host's callbacks, the files and the
//! window.

use vstd::prelude::*;

use crate::protocol::Cmd;

verus! {

pub const LOG_ERROR: i32 = 0;

pub const LOG_WARN: i32 = 1;

pub const LOG_INFO: i32 = 2;

pub const LOG_DEBUG: i32 = 3;

/// One thing to do.
#[derive(Debug, PartialEq, Eq)]
pub enum Action<Text = String> {
    /// Write a line to the host's log.
    Log { level: i32, text: Text },
    /// Show a notification.
    Notify { title: Text, body: Text },
    /// Store a JSON text in the configuration.
    SetConfig { key: Text, json: Text },
    /// Ask the host to mute or unmute; the answer goes to `muted_reply`.
    SetMuted { on: bool },
    /// Ask the host to switch monitoring; the answer goes to `monitoring_reply`.
    SetMonitoring { on: bool },
    /// Start the host's interval timer; its id goes to `interval_set`.
    SetInterval { ms: u64, payload: Text },
    ClearInterval { id: u64 },
    SetPanelIcon { panel: Text, icon: Text },
    /// Start the window with this theme and position (both coordinates
    /// negative: the default place); the outcome goes to `spawned` or
    /// `spawn_failed`.
    SpawnHelper { theme: Text, x: i32, y: i32 },
    /// Send the window the command to load this theme.
    SendTheme { theme: Text },
    /// Send the window a command. When it is gone the command is lost.
    Send(Cmd<Text>),
    /// Ask the window to leave, and end it when it does not.
    StopHelper,
    /// List the theme files and hand them to `publish_theme_list`.
    ListThemes { force: bool },
    /// Write a theme file; the outcome goes to `theme_saved`.
    WriteTheme { name: Text, source: Text },
    /// Read a theme file; the outcome goes to `theme_staged`.
    ReadTheme { name: Text },
    /// Write all bundled themes; a failure goes to `restore_failed`.
    RestoreThemes,
}

impl View for Action {
    type V = Action<Seq<char>>;

    open spec fn view(&self) -> Action<Seq<char>> {
        match *self {
            Action::Log { level, text } => Action::Log { level, text: text@ },
            Action::Notify { title, body } => Action::Notify { title: title@, body: body@ },
            Action::SetConfig { key, json } => Action::SetConfig { key: key@, json: json@ },
            Action::SetMuted { on } => Action::SetMuted { on },
            Action::SetMonitoring { on } => Action::SetMonitoring { on },
            Action::SetInterval { ms, payload } => Action::SetInterval { ms, payload: payload@ },
            Action::ClearInterval { id } => Action::ClearInterval { id },
            Action::SetPanelIcon { panel, icon } => Action::SetPanelIcon {
                panel: panel@,
                icon: icon@,
            },
            Action::SpawnHelper { theme, x, y } => Action::SpawnHelper { theme: theme@, x, y },
            Action::SendTheme { theme } => Action::SendTheme { theme: theme@ },
            Action::Send(cmd) => Action::Send(cmd@),
            Action::StopHelper => Action::StopHelper,
            Action::ListThemes { force } => Action::ListThemes { force },
            Action::WriteTheme { name, source } => Action::WriteTheme {
                name: name@,
                source: source@,
            },
            Action::ReadTheme { name } => Action::ReadTheme { name: name@ },
            Action::RestoreThemes => Action::RestoreThemes,
        }
    }
}

/// What a list of actions asks for.
pub open spec fn acts(list: Seq<Action>) -> Seq<Action<Seq<char>>> {
    list.map_values(|a: Action| a@)
}

/// A log line, as contracts speak of it.
pub open spec fn log_line(level: i32, text: Seq<char>) -> Action<Seq<char>> {
    Action::Log { level, text }
}

/// A configuration write, as contracts speak of it.
pub open spec fn config(key: Seq<char>, json: Seq<char>) -> Action<Seq<char>> {
    Action::SetConfig { key, json }
}

/// An empty list of actions.
pub fn nothing() -> (list: Vec<Action>)
    ensures
        acts(list@) == Seq::<Action<Seq<char>>>::empty(),
{
    let list: Vec<Action> = Vec::new();
    assert(acts(list@) =~= Seq::<Action<Seq<char>>>::empty());
    list
}

/// Puts one more action at the end of a list.
pub fn then_do(list: &mut Vec<Action>, action: Action)
    ensures
        acts(final(list)@) == acts(old(list)@).push(action@),
{
    list.push(action);
    assert(acts(list@) =~= acts(old(list)@).push(action@));
}

/// Puts all actions of `more` at the end of a list.
pub fn then_all(list: &mut Vec<Action>, more: Vec<Action>)
    ensures
        acts(final(list)@) == acts(old(list)@) + acts(more@),
{
    let mut rest = more;
    list.append(&mut rest);
    assert(acts(list@) =~= acts(old(list)@) + acts(more@));
}

/// A log line.
pub fn log(level: i32, text: String) -> (action: Action)
    ensures
        action@ == log_line(level, text@),
{
    Action::Log { level, text }
}

pub fn log_info(text: String) -> (action: Action)
    ensures
        action@ == log_line(LOG_INFO, text@),
{
    log(LOG_INFO, text)
}

pub fn log_warn(text: String) -> (action: Action)
    ensures
        action@ == log_line(LOG_WARN, text@),
{
    log(LOG_WARN, text)
}

pub fn log_error(text: String) -> (action: Action)
    ensures
        action@ == log_line(LOG_ERROR, text@),
{
    log(LOG_ERROR, text)
}

/// A configuration write.
pub fn set_config(key: &str, json: &str) -> (action: Action)
    ensures
        action@ == config(key@, json@),
{
    Action::SetConfig { key: key.to_owned(), json: json.to_owned() }
}

} // verus!
