//! The turn orchestration core of an interactive coding-agent runtime.
//!
//! The crate drives one conversational turn between a user, a language model
//! and a set of tools.  It assembles the wire request a streaming chat API
//! expects (`chat`, `wire`), classifies model-emitted items as tool calls or
//! display artifacts (`router`, `reducer`), and sequences approval, sandbox
//! selection, execution and retry for each tool call (`orchestrator`).

pub mod items;
pub mod wire;
pub mod chat;
pub mod laws;
pub mod router;
pub mod reducer;
pub mod orchestrator;
