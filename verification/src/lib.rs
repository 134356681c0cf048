//! Session-scoped file-change notification routing for a local
//! character-sheet companion server.
//!
//! The heart of the crate is [`router::Router`]: the single authority over
//! subscriber registration, per-session watch sets and change fan-out, with
//! its delivery guarantees stated and proved in [`laws`]. The surrounding
//! modules hold the portable path representation exchanged with clients and
//! the character-sheet data model.

pub mod attribute_bonus;
pub mod bonus;
pub mod character;
pub mod control_roll;
pub mod event;
pub mod feature;
pub mod file_entry;
pub mod laws;
pub mod os_string;
pub mod print_settings;
pub mod rejection;
pub mod router;
pub mod version;
pub mod weapon;
