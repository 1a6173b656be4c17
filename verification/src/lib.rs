//! Core logic of a Minecraft server status watcher.
//!
//! The watcher polls a status endpoint for one server and raises a desktop
//! notification whenever the observed availability changes (and once for the
//! very first observation).  Everything that decides — classifying a fetched
//! status, deciding whether to notify, composing the notification text, and
//! advancing the tracked state — lives here and is verified.  The surrounding
//! process (reading the server name, the HTTP request, the timer, and the
//! delivery of notifications to the OS) is plain I/O and stays outside.

pub mod notify;
pub mod poll;
pub mod status;
pub mod tracker;
pub mod text;
