//! Contact-sensor monitoring core: contact reports, the contact table, the
//! MQTT session and reconnection rules, and the stored configuration.

pub mod text;
pub mod json;
pub mod contact;
pub mod table;
pub mod topics;
pub mod state;
pub mod mqtt;
pub mod config;
pub mod laws;
