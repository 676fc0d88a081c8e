//! The controller of a terminal client for Gopher: the state behind the
//! screen, and what every event makes of it.
//!
//! A front end draws what the state says and reports what the user does; a
//! backend fetches and saves. Both talk to the controller through messages.
//! Nothing here draws on the terminal, talks to the network or touches a file.

pub mod address;
pub mod bookmarks;
pub mod controller;
pub mod dialogs;
pub mod gophermap;
pub mod history;
pub mod layout;
pub mod menu;
pub mod model;
pub mod ncgopher;
pub mod settings;
pub mod text;
