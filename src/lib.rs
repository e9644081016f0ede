//! Request handling for a small site that sends a to-do list and a daily
//! schedule to a hosted workflow service and picks the suggested tasks out of
//! its answer.

pub mod json;
pub mod text;
pub mod tasks;
pub mod report;
pub mod workflow;
pub mod echo;
