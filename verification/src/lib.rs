//! The decision-making core of a tiling and floating window manager.
//!
//! The manager consumes one event at a time, keeps the model of windows,
//! tags and the interaction mode, and appends display actions to a queue
//! that a backend drains in order.

pub mod geometry;
pub mod buttons;
pub mod tag;
pub mod autotag;
pub mod window;
pub mod manager;
pub mod mouse_combo_handler;
pub mod window_handler;
pub mod event;
pub mod laws;
