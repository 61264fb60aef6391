//! Core of a bulk HTTP load generator: request templates are expanded into
//! tasks, the tasks are dispatched under a bounded in-flight window, results
//! are streamed out in completion order, and the run closes with an
//! aggregate throughput report.

pub mod dispatch;
pub mod executor;
pub mod requests;
pub mod sink;
pub mod summary;
