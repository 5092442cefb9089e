//! The channels through which messages come and go.

pub mod persona_switch;
pub mod serial;
