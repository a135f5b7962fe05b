//! What the polling widgets of the bar compute from what they read.

pub mod battery;
pub mod clock;
pub mod gpu;
pub mod ip;
pub mod json;
pub mod mpris;
pub mod network;
pub mod power_profiles;
pub mod scripts;
pub mod volume;
pub mod weather;
pub mod workspaces;
