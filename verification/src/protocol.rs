//! Messages between the plugin and the floating window.
//!
//! Commands go to the window, events come from it. When the window runs in a
//! process of its own, each message travels as one line of JSON; lines that
//! hold nothing are skipped, and messages that cannot be read are ignored.
//!
//! The types are generic in their texts: `Cmd` holds strings, and its view
//! `Cmd<Seq<char>>` holds the characters of the same strings.

use vstd::prelude::*;

use crate::text::{joined2, trim, trimmed};

verus! {

/// A double-precision number, held by its bit pattern. Such numbers are carried
/// from the host to the window and never computed with.
#[derive(Debug, Clone, Copy, PartialEq, Eq, Structural)]
pub struct Real {
    pub bits: u64,
}

/// One frame of audio and connection state.
#[derive(Debug, Clone, PartialEq, Eq)]
pub struct StatePayload<Text = String> {
    /// Input level, 0 to 1.
    pub level: Real,
    /// Level behind the signal processing, 0 to 1.
    pub processed: Real,
    pub muted: bool,
    pub streaming: bool,
    pub monitoring: bool,
    pub sample_rate: u32,
    pub channels: u32,
    pub queued_ms: Real,
    /// Seconds since the current connection was established.
    pub session_seconds: u64,
    /// The same as `MM:SS` or `H:MM:SS`.
    pub session_text: Text,
    /// Label and mode of the connected device; empty when unknown.
    pub device_label: Text,
    pub device_mode: Text,
}

/// A command to the window.
#[derive(Debug, Clone, PartialEq, Eq)]
pub enum Cmd<Text = String> {
    /// Show this state.
    State(StatePayload<Text>),
    /// Replace the theme by the one in the file at `path`.
    Theme { path: Text },
    /// Show or hide the window.
    Visible { show: bool },
    /// Move the window, in physical pixels.
    Pos { x: i32, y: i32 },
    /// Move the window to the top right of the primary screen.
    PosDefault,
    /// Show a transcript for `hold_ms` milliseconds.
    Wdis { text: Text, hold_ms: u64 },
    /// Render the window to a PNG file.
    Snapshot { path: Text },
    /// Leave.
    Quit,
}

/// An event of the window.
#[derive(Debug, Clone, PartialEq, Eq)]
pub enum Ev<Text = String> {
    /// The theme is shown. `reloaded` says that it replaced another one.
    Ready { theme: Text, reloaded: bool },
    /// The theme could not be loaded.
    ThemeError { message: Text },
    /// The user asks to toggle the host's mute.
    Mute,
    /// The user asks to toggle the host's monitoring.
    Monitoring,
    /// A menu action of the theme.
    Menu { action: Text },
    /// The user has hidden the window.
    Hide,
    /// The window was moved, in physical pixels.
    Moved { x: i32, y: i32 },
    /// A line for the log.
    Log { message: Text },
    /// The window has left.
    Bye,
}

impl View for StatePayload {
    type V = StatePayload<Seq<char>>;

    open spec fn view(&self) -> StatePayload<Seq<char>> {
        StatePayload {
            level: self.level,
            processed: self.processed,
            muted: self.muted,
            streaming: self.streaming,
            monitoring: self.monitoring,
            sample_rate: self.sample_rate,
            channels: self.channels,
            queued_ms: self.queued_ms,
            session_seconds: self.session_seconds,
            session_text: self.session_text@,
            device_label: self.device_label@,
            device_mode: self.device_mode@,
        }
    }
}

impl View for Cmd {
    type V = Cmd<Seq<char>>;

    open spec fn view(&self) -> Cmd<Seq<char>> {
        match *self {
            Cmd::State(payload) => Cmd::State(payload@),
            Cmd::Theme { path } => Cmd::Theme { path: path@ },
            Cmd::Visible { show } => Cmd::Visible { show },
            Cmd::Pos { x, y } => Cmd::Pos { x, y },
            Cmd::PosDefault => Cmd::PosDefault,
            Cmd::Wdis { text, hold_ms } => Cmd::Wdis { text: text@, hold_ms },
            Cmd::Snapshot { path } => Cmd::Snapshot { path: path@ },
            Cmd::Quit => Cmd::Quit,
        }
    }
}

impl View for Ev {
    type V = Ev<Seq<char>>;

    open spec fn view(&self) -> Ev<Seq<char>> {
        match *self {
            Ev::Ready { theme, reloaded } => Ev::Ready { theme: theme@, reloaded },
            Ev::ThemeError { message } => Ev::ThemeError { message: message@ },
            Ev::Mute => Ev::Mute,
            Ev::Monitoring => Ev::Monitoring,
            Ev::Menu { action } => Ev::Menu { action: action@ },
            Ev::Hide => Ev::Hide,
            Ev::Moved { x, y } => Ev::Moved { x, y },
            Ev::Log { message } => Ev::Log { message: message@ },
            Ev::Bye => Ev::Bye,
        }
    }
}

/// The line that carries one encoded message.
pub open spec fn line_of(message: Seq<char>) -> Seq<char> {
    message + "\n"@
}

/// Whether a line holds anything to decode.
pub open spec fn filled_line(line: Seq<char>) -> bool {
    trimmed(line).len() > 0
}

/// The line that carries one encoded message.
pub fn emit(message: &str) -> (line: String)
    ensures
        line@ == line_of(message@),
        line@ == message@ + "\n"@,
{
    joined2(message, "\n")
}

/// Whether a line of the channel holds anything to decode.
pub fn carries_message(line: &str) -> (filled: bool)
    ensures
        filled == filled_line(line@),
        filled == (trimmed(line@).len() > 0),
{
    !trim(line).as_str().is_empty()
}

} // verus!
