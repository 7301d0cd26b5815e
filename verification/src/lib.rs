//! A polite, bounded crawler core: link extraction, resource resolution,
//! download with bounded retry, and run aggregation, with every decision
//! stated as a contract and proved. Beside it, the rules of two smaller
//! programs: the moves of a snake and the failures of a task service.

pub mod crawl;
pub mod download;
pub mod errors;
pub mod extract;
pub mod outcome;
pub mod resolve;
pub mod site;
pub mod snake;
pub mod task;
