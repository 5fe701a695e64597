//! Connections that recover by themselves from disconnections: the options that steer
//! the recovery and the decisions taken on each connection event.

pub mod config;
pub mod reconnect;
pub mod strategies;

pub use config::ReconnectOptions;
