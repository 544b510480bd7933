//! Project Launcher: groups applications, folders, files, URLs, commands and
//! waits into profiles, and runs a profile's actions in order.
//!
//! The library holds what the launcher decides and computes; its callers do
//! the input and output and hand back what came of it. The modules, from the
//! ground up:
//!
//! - [`text`], [`number`], [`utf16`], [`paths`]: text and its forms.
//! - [`config`], [`validation`], [`storage`]: the config model, its rules, and
//!   how the file is read and written.
//! - [`profile`], [`actions`]: finding and running profiles, and what each
//!   action hands to Windows.
//! - [`args`], [`cli`]: the command line and what it reports.
//! - [`shortcut`], [`autostart`]: shortcuts and the logon entry.
//! - [`ipc`], [`resident`]: run requests and the process that serves them.
//! - [`layout`], [`editor`], [`gui`]: the profile manager.
//! - [`laws`]: what holds of all of these, in plain terms.

pub mod actions;
pub mod args;
pub mod autostart;
pub mod cli;
pub mod config;
pub mod editor;
pub mod gui;
pub mod ipc;
pub mod laws;
pub mod layout;
pub mod number;
pub mod paths;
pub mod profile;
pub mod resident;
pub mod shortcut;
pub mod storage;
pub mod text;
pub mod utf16;
pub mod validation;
