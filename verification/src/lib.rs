//! Monitoring of a UPS over SNMP with automatic host shutdown.
pub mod config;
pub mod install;
pub mod monitor;
pub mod shutdown;
pub mod snmp;
pub mod text;
pub mod time;
pub mod ups;
