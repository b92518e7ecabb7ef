//! Verified core of a terminal typing-speed trainer.
//!
//! The crate holds the page stack and its dispatch rules, the menu, and the
//! typing session with the text that is shown for it.  Reading the terminal,
//! drawing and the event queue are left to the program around it.

pub mod app;
pub mod display;
pub mod events;
pub mod input;
pub mod page;
pub mod session;
pub mod text;
