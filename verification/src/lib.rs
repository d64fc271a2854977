//! Keeps the save data of applications in a git repository: each tracked
//! application finds its save data through a symbolic link into the
//! repository, and the repository follows a branch of a remote by fetch and
//! rebase.
//!
//! The library decides and never acts. `track::Tracker` and
//! `sync::SyncSession` each name the one operation that is due on the
//! filesystem or on the repository; the caller carries it out and hands back
//! what happened. `track_safety` and `sync_safety` prove what this does to the
//! data, on models of the filesystem and of the repository.
pub mod config;
pub mod sync;
pub mod sync_safety;
pub mod track;
pub mod track_safety;
pub mod utils;
