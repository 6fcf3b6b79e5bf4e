//! Decker: maps gamepad input onto document-viewer control actions.
//!
//! The library holds the decision logic of the daemon: the button and stick
//! mapping tables, the conversion of raw gamepad events into controller
//! events, of controller events and stick positions into actions, and of
//! actions into the `xdotool` command lines that carry them out.
//!
//! Analog quantities (stick deflections, trigger values, the dead zone and
//! cursor displacements) are fixed-point integers in millionths of a unit.
pub mod analog;
pub mod text;
pub mod table;
pub mod config;
pub mod controller;
pub mod action;
pub mod input;
