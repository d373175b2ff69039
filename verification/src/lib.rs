//! Verified core of a terminal anime browser: configuration, the anime
//! model, playback arguments, cache staleness and season arithmetic, and
//! the navigation state machine of the user interface.

pub mod anime;
pub mod catalogue;
pub mod config;
pub mod cover;
pub mod error;
pub mod home;
pub mod labels;
pub mod player;
pub mod state;
pub mod store;
pub mod sync;
pub mod text;
