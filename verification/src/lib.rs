pub mod command_relay;
pub mod config;
pub mod kafka;
pub mod mavlink_source;
pub mod message;
pub mod pipeline;
pub mod properties;
