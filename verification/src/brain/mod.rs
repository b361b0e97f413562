//! The language-model client: requests, prompts and replies.
pub mod client;
pub mod prompt;
