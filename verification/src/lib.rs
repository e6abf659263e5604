//! Core of a chat bot that disbands voice channels: a bilingual command
//! grammar, a timezone-aware temporal model, and the decision logic of a
//! one-shot scheduler. Everything here is verified; the chat transport and
//! the persistent stores live outside, behind plain-value interfaces.

pub mod context;
pub mod database;
pub mod error;
pub mod model;
pub mod say;
pub mod setting;
pub mod use_case;
