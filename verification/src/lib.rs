//! Captive-portal network orchestrator core.
//!
//! The library holds the verified logic of a captive portal that stands up a
//! temporary WiFi access point, serves a small control surface through it,
//! and resets a wired interface back to DHCP on user command: the command
//! orchestrator state machine, the countdown timer, the HTTP surface
//! decisions, the connection-profile rules, and the error taxonomy.

pub mod config;
pub mod dnsmasq;
pub mod errors;
pub mod exit;
pub mod network;
pub mod privileges;
pub mod server;
pub mod session;
pub mod text;
pub mod timer;
