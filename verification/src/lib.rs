//! Screen management for a small interactive application: one active screen
//! at a time, driven tick by tick, with session data that outlives each screen.
//!
//! The [`driver`] owns the active [`screen`] and the [`session`]. The host
//! delivers pointer events, runs one update per frame, and draws what the
//! driver says. A screen records what the player asks for when an event
//! arrives; only the next update acts on it, so the active screen changes
//! at one point of a frame and nowhere else. The module [`laws`] states
//! what holds over whole runs of events.
//!
//! Positions are whole pixels of the drawing surface, and nothing here
//! touches a window or a graphics card: a screen is drawn by handing out
//! the commands that draw it.

pub mod driver;
pub mod geometry;
pub mod laws;
pub mod leader_board;
pub mod main_menu;
pub mod mesh;
pub mod panel;
pub mod playing;
pub mod screen;
pub mod screen_id;
pub mod select_difficulty;
pub mod session;
pub mod widget;
