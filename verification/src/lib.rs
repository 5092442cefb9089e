//! The verified core of an agent runtime: command parsing, composed tools,
//! provider requests, device channels and the checks that guard them.

pub mod bus;
pub mod channels;
pub mod clock;
pub mod error;
pub mod hardware;
pub mod http;
pub mod json;
pub mod laws;
pub mod paths;
pub mod peripherals;
pub mod providers;
pub mod session;
pub mod text;
pub mod text_map;
pub mod tools;
