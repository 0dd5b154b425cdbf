//! The core of a terminal front end: what a command line asks for, how the
//! output of a listing tool is made reliable, and how a command is run with
//! elevated rights.
//!
//! The library decides and computes; it never touches the host. A caller runs
//! the processes, reads the file system and the clock, and hands the library
//! plain values. Every function states what it returns over the sequence of
//! characters that a text is, and Verus proves that it does.
//!
//! - [`dispatch`] tells an exit, a listing and any other command apart, and
//!   picks the answer from what a command wrote.
//! - [`listing`] finds the entries in the output of a listing tool and tags
//!   each line with the type of its entry; [`listing_laws`] holds what is true
//!   of every normalised listing.
//! - [`file_type`] classifies a path from the facts read of it.
//! - [`cache`] remembers for a while that elevation was granted.
//! - [`sudo`] drives an elevation step by step and cleans up after it;
//!   [`sudo_laws`] shows that attempts never share a file.
//! - [`presentation`], [`directory`], [`paths`], [`history`] and
//!   [`assistant`] serve the commands around that core.
//! - [`text`] is the ground they all stand on.

pub mod assistant;
pub mod cache;
pub mod directory;
pub mod dispatch;
pub mod file_type;
pub mod history;
pub mod listing;
pub mod listing_laws;
pub mod paths;
pub mod presentation;
pub mod sudo;
pub mod sudo_laws;
pub mod text;
