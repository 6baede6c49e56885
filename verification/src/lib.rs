//! A verified core for an agent that analyses a codebase by driving a language
//! model through a reason / act / observe loop.
//!
//! The crate holds the decisions of that loop: the conversation memory, the
//! tool registry and dispatch, the rules each tool applies to what the file
//! system reports, and the state machine that ties them together. Network and
//! file access are left to the caller, which feeds their outcomes back in as
//! plain values.

pub mod text;
pub mod types;
pub mod agent;
pub mod json;
pub mod pattern;
pub mod memory;
pub mod prompts;
pub mod registry;
pub mod tools;
pub mod utils;
