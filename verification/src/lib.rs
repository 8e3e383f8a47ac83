//! Reduces the mixed text and JSON report of a fleet query to one definitive
//! status per minion, and decides which minions deserve another query.

pub mod host;
pub mod json;
pub mod classify;
pub mod report;
pub mod prefilter;
pub mod reduce;
pub mod retry;
pub mod sink;
pub mod command;
