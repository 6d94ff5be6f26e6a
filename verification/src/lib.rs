//! Ping meter: the state and rules behind a small network latency monitor.
pub mod channel;
pub mod decimal;
pub mod main_menu;
pub mod menu;
pub mod meter;
pub mod ping_data;
pub mod pinger;
pub mod settings;
pub mod settings_menu;
