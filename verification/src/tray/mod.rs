//! The tray engine: the replica of the published items and menus, the rules
//! by which protocol events change it, and what consumers make of its
//! notifications.

pub mod backend;
pub mod channel;
pub mod consumer;
pub mod event;
pub mod idmap;
pub mod item;
pub mod laws;
pub mod menu;
pub mod render;
pub mod router;
