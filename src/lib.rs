//! Gateway logic between a home-automation hub and NSPanel touch displays:
//! device state with field-level merging, page navigation, and the
//! translation of hub events and panel events into display frames.

pub mod alarm;
pub mod cards;
pub mod clock;
pub mod command;
pub mod config;
pub mod events;
pub mod hass;
pub mod laws;
pub mod mqttc;
pub mod pages;
pub mod parsing;
pub mod screensaver;
pub mod state;
pub mod text;
pub mod watcher;
pub mod weather;
