//! Rate-limited batch dispatch of JSON requests: the decisions of the feeder
//! and of the dispatcher, weighted endpoint selection, the status counters and
//! the framing of log records, with the surrounding I/O left to the caller.

pub mod dispatcher;
pub mod endpoint;
pub mod feeder;
pub mod json;
pub mod ledger;
pub mod sink;
pub mod status;
pub mod task;

pub use crate::dispatcher::{
    backoff_delay, begin_dispatch, build_failure_record, conclude, on_response,
    on_transport_failure, on_unreadable_body, record_failure, response_errors, DispatchAction,
    DispatchEvent, Outgoing,
};
pub use crate::endpoint::{checked_total_weight, pick_endpoint, select_endpoint, Endpoint};
pub use crate::feeder::{FeedOutcome, RequestFeeder};
pub use crate::json::{Document, Fields};
pub use crate::sink::log_line;
pub use crate::status::{StatusTracker, Step};
pub use crate::task::{input_text, task_id_generator, APIRequest, TaskIdGenerator};
