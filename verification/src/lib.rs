//! Prompt orchestration and conversational memory for a bridge between a
//! modelling application and a locally hosted language model.

pub mod bridge;
pub mod client;
pub mod deliberate;
pub mod memory;
pub mod prompt;
pub mod reply;
pub mod templates;
pub mod text;
pub mod transport;
