//! Providers of language models.

pub mod chat;
pub mod gemini;
