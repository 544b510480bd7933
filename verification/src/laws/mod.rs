//! What the launcher promises its users, said without the terms that the
//! single modules use for it.
//!
//! A law here speaks of what the library's functions may answer, and of
//! characters, sequences and the values of the config, so that it can be
//! read, and held against the modules, on its own:
//!
//! - [`runs`], [`launches`]: which profile is run, which of its actions, and
//!   what each of them asks of Windows.
//! - [`rules`], [`files`]: what a config may hold, and how it is read and
//!   saved.
//! - [`commands`], [`messages`]: the command line, and what is said.
//! - [`shortcuts`], [`requests`]: shortcuts, and the resident.
//! - [`windows`], [`editing`]: the profile manager.
//! - [`numbers`]: numbers and text.

pub mod commands;
pub mod editing;
pub mod files;
pub mod launches;
pub mod messages;
pub mod numbers;
pub mod requests;
pub mod rules;
pub mod runs;
pub mod shortcuts;
pub mod windows;
