//! Startup logic of a small always-on-top desktop window.
//!
//! - [`placement`] computes where the window goes on the screen.
//! - [`platform`] chooses between a floating panel and an ordinary window.
//! - [`startup`] orders the steps of startup and decides what follows each
//!   of them.
//!
//! Nothing here talks to a windowing toolkit. The embedding application
//! performs each requested action and reports what happened.

pub mod placement;
pub mod platform;
pub mod startup;
