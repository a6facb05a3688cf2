//! A reasoning agent's decision core: it decodes a language model's free-form
//! reply into a plan, dispatches named tools, builds the next prompt, and
//! keeps the conversation history, all as verified functions on text.

pub mod agent;
pub mod config;
pub mod dispatch;
pub mod ollama;
pub mod plan;
pub mod prompt;
pub mod text;
pub mod tools;
