//! Supervision core of a per-service desktop daemon: the wire codec, the shared
//! daemon state, and the decisions of its relay, loader and supervisor.

pub mod autostart;
pub mod chrome;
pub mod cli;
pub mod config;
pub mod control;
pub mod daemon;
pub mod desktop;
pub mod detect;
pub mod json;
pub mod loader;
pub mod logging;
pub mod messaging;
pub mod paths;
pub mod relay;
pub mod service;
pub mod state;
pub mod supervisor;
pub mod text;
pub mod tray;
pub mod wire;
