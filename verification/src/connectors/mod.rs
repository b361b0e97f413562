//! Connectors to outside services: what they fetch (queries) and what they
//! change (mutations), as requests to send and replies to interpret.
pub mod calendar;
pub mod chatwork;
pub mod gmail;
pub mod http;
pub mod linear;
pub mod registry;
pub mod slack;
pub mod todoist;
pub mod traits;
