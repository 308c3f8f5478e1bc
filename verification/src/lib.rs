//! The verified core of two small MCP servers.

pub mod calendar;
pub mod delay;
pub mod fast_time;
pub mod filesystem;
pub mod moment;
pub mod offset;
pub mod protocol;
pub mod text;
pub mod timezone;

