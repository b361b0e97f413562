//! Predefined workflows (skills): briefing, inbox processing, task breakdown
//! and the daily review, each as a step function from an event to the next
//! action, and the text they produce.
pub mod format;
pub mod inbox;
pub mod breakdown;
pub mod briefing;
pub mod review;
pub mod traits;
