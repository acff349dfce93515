//! Core engine of a self-hosted conversational-AI companion: prompt
//! templating, context-window selection, character-card interchange, an
//! in-memory model of the persisted companion/user/config/message records,
//! and the orchestration rules for one generation turn.

pub mod card;
pub mod clock;
pub mod context;
pub mod database;
pub mod error;
pub mod models;
pub mod orchestrator;
pub mod template;
pub mod text;

pub use error::Error;
