//! A result producer: builds the fixed status/message record of a completed
//! run and renders the line that reports it.

pub mod producer;
pub mod record;
pub mod report;

pub use producer::run;
pub use record::{RunResult, RunResultView};
pub use report::{compose_report, report};
