//! The logic of a desktop status bar.
//!
//! [`tray`] is the synchronisation engine for status-notifier items: it keeps
//! an authoritative replica of every published item and its context menu,
//! turns protocol events into full-snapshot notifications, and lets any number
//! of consumers rebuild their local view from the replica when they fall
//! behind. [`widgets`] holds what the polling widgets of the bar compute from
//! what they read, and [`text`] the text handling they share.

pub mod text;
pub mod tray;
pub mod widgets;
