//! Connected devices.

pub mod introspect;
