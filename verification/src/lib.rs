//! Configuration and event-routing logic of a button mapper for Linux input
//! devices.
pub mod text;
pub mod ini;
pub mod keys;
pub mod bindings;
pub mod config;
pub mod input;
pub mod events;
