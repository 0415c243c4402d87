//! Input-to-motion core of a tile-based overworld: frame pacing, keyboard
//! ownership, a scrolling viewport, the player's walk state machine and the
//! talk dialog.

pub mod actor;
pub mod components;
pub mod controller;
pub mod frame_sync;
pub mod viewport;
pub mod shared_state;
pub mod walk;
pub mod player;
pub mod dialog;
pub mod timer;
pub mod tile;
pub mod resolver;
