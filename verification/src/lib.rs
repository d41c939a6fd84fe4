//! Core of a live-reloading static file server: the rules that decide what is
//! served, which port is tried next, which browser sessions are told to
//! reload, and how a filesystem notification becomes a change event.
//!
//! Sockets, files, timers and the watcher thread live with the caller; this
//! crate takes plain values in and hands plain values back.

pub mod assets;
pub mod binder;
pub mod config;
pub mod snippet;
pub mod registry;
pub mod text;
pub mod watcher;
