//! A gateway that speaks a JSON-RPC tool-invocation protocol: it lists the
//! tools and prompts it offers, compiles scan options into command lines, and
//! decides for every incoming message what is answered and what is asked of
//! the scanner backends.
//!
//! The library decides and computes; it reads no stream and opens no
//! connection. [`engine::step`] takes what happened, a line that arrived or
//! an answer of a backend, and tells what is to be done next. JSON text is
//! read by `serde_json` ([`wire`]); everything after that is proved.

pub mod text;
pub mod json;
pub mod wire;
pub mod models;
pub mod api;
pub mod services;
pub mod tools;
pub mod registry;
pub mod prompts;
pub mod protocol;
pub mod engine;

pub use crate::registry::ToolRegistry;
pub use crate::tools::Tool;
