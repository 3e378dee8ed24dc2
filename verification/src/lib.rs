//! The decisions of a customizable floating window: a plugin that shows the state of
//! a host's audio in a small window, and the window itself.
//!
//! Nothing here touches files, processes, the screen or the host. What is to be done
//! comes out as values ([`action::Action`], [`ui::Task`] and the like), and what has
//! happened goes in as values.
//!
//! * The plugin: its state and the life of the window's process ([`plugin`]), its
//!   start and its ticks ([`cycle`]), what the window and the host report
//!   ([`events`]), the panel ([`panel`]), frames and status ([`status`]), settings
//!   ([`config`]), connections ([`session`]), theme files ([`themes`]) and messages
//!   ([`message`]). [`laws`] says what holds of all of it, [`laws_core`] and
//!   [`laws_panel`] what each of its operations does.
//! * The window: dragging and placing it ([`ui`]), themes ([`theme`], [`members`],
//!   [`arc`]), the platforms ([`platform`]), its process ([`helper`], [`startup`]), and
//!   what holds of them ([`laws_window`], [`laws_tools`], [`laws_text`]).
//! * Between them: the messages ([`protocol`]) and the host's interface ([`abi`]);
//!   [`mock_host`] stands in for a host, with its settings in [`store`].

pub mod abi;
pub mod action;
pub mod arc;
pub mod config;
pub mod cycle;
pub mod events;
pub mod helper;
pub mod json;
pub mod laws;
pub mod laws_core;
pub mod laws_panel;
pub mod laws_text;
pub mod laws_tools;
pub mod laws_window;
pub mod members;
pub mod message;
pub mod mock_host;
pub mod panel;
pub mod platform;
pub mod plugin;
pub mod protocol;
pub mod session;
pub mod startup;
pub mod status;
pub mod store;
pub mod text;
pub mod theme;
pub mod themes;
pub mod ui;
