//! The decisions of the dispatcher: what to send for a task, and what to do
//! once the attempt has ended.
//!
//! The caller does the outside work. It asks `begin_dispatch` what to send,
//! sends it, and hands what happened to `conclude` as a `DispatchEvent`;
//! `conclude` answers with the one `DispatchAction` to carry out.

use crate::endpoint::{select_endpoint, selects, total_weight, Endpoint};
use crate::json::{no_members, parse_bytes, Document, Fields, Json};
use crate::status::{StatusTracker, Step};
use crate::task::{input_key, input_text, APIRequest};
use vstd::arithmetic::power2::{lemma2_to64, lemma_pow2_strictly_increases, lemma_pow2_unfold, pow2};
use vstd::prelude::*;

verus! {

/// The key under which a response reports errors.
pub open spec fn errors_key() -> Seq<char> {
    "errors"@
}

/// The key under which a failure record holds the error.
pub open spec fn error_key() -> Seq<char> {
    "error"@
}

/// The errors that a response reports: its member under `errors_key()`,
/// where that is an array with at least one element.
pub open spec fn reported_errors(body: Json) -> Option<Json> {
    match body.member(errors_key()) {
        Some(errors) => match errors.array_len() {
            Some(n) => if n > 0 {
                Some(errors)
            } else {
                None
            },
            None => None,
        },
        None => None,
    }
}

/// The record of a failure: an object that holds the text that was sent,
/// under `input_key()`, and the error, under `error_key()`.
pub open spec fn failure_record(input: Seq<char>, error: Json) -> Json {
    Json::Object(no_members().insert(input_key(), Json::Text(input)).insert(error_key(), error))
}

/// The seconds to wait before the retry that leaves `attempts_left` attempts
/// of `max_attempts`: 2 to the power of the attempts used up.
pub open spec fn backoff_secs(max_attempts: usize, attempts_left: usize) -> nat {
    pow2((max_attempts - attempts_left) as nat)
}

/// What the outside work of one attempt reported.
#[derive(Debug)]
pub enum DispatchEvent {
    /// No response came: the connection failed or timed out. Holds the
    /// transport's message.
    TransportFailure(String),
    /// A response came, but its body could not be read. Holds the transport's
    /// message.
    BodyUnreadable(String),
    /// A response came. Holds the bytes of its body.
    Response(Vec<u8>),
}

/// What the caller is to do after an attempt.
#[derive(Debug)]
pub enum DispatchAction {
    /// Wait `delay_secs` seconds, then put `request` back on the channel.
    Retry { delay_secs: u64, request: APIRequest },
    /// Append the record to the error log.
    AppendError(Document),
    /// Append the record to the results log.
    AppendResult(Document),
}

/// How an attempt ends.
pub enum Outcome {
    /// The task gets another attempt.
    Retry,
    /// The task has failed for good, with this error.
    Failure(Json),
    /// The task has succeeded, with this response.
    Success(Json),
}

impl Outcome {
    /// The step that the counters take on this outcome.
    pub open spec fn step(self) -> Step {
        match self {
            Outcome::Retry => Step::Retried,
            Outcome::Failure(_) => Step::Failed,
            Outcome::Success(_) => Step::Succeeded,
        }
    }
}

/// How an attempt ends that met a transport failure with `attempts_left`
/// attempts left, this one counted: with a retry while another attempt is
/// left after it, else with failure.
pub open spec fn transport_outcome(attempts_left: usize, message: Seq<char>) -> Outcome {
    if attempts_left > 1 {
        Outcome::Retry
    } else {
        Outcome::Failure(Json::Text(message))
    }
}

/// How an attempt ends whose response body was parsed to `parsed`: with
/// failure where the body is no JSON or reports errors, else with success.
/// Whatever attempts are left, it does not end with a retry.
pub open spec fn response_outcome(parsed: Result<Json, Seq<char>>) -> Outcome {
    match parsed {
        Err(message) => Outcome::Failure(Json::Text(message)),
        Ok(body) => match reported_errors(body) {
            Some(errors) => Outcome::Failure(errors),
            None => Outcome::Success(body),
        },
    }
}

/// How an attempt ends on `event`, with `attempts_left` attempts left, this
/// one counted.
pub open spec fn outcome(attempts_left: usize, event: DispatchEvent) -> Outcome {
    match event {
        DispatchEvent::TransportFailure(message) => transport_outcome(attempts_left, message@),
        DispatchEvent::BodyUnreadable(message) => Outcome::Failure(Json::Text(message@)),
        DispatchEvent::Response(body) => response_outcome(parse_bytes(body@)),
    }
}

/// Whether a transport failure can be answered for a task with
/// `attempts_left` attempts left, this one counted: the task has this attempt,
/// it has no more than `max_attempts`, and where it is to be retried the
/// backoff delay fits in a `u64`.
pub open spec fn within_budget(attempts_left: usize, max_attempts: usize) -> bool {
    &&& 1 <= attempts_left <= max_attempts
    &&& attempts_left > 1 ==> backoff_secs(max_attempts, (attempts_left - 1) as usize) <= u64::MAX
}

impl StatusTracker {
    /// Whether the counters have room for every end that an attempt can take
    /// on `event`: for the one end of a transport failure and of an unreadable
    /// body, and for both failure and success where a response is yet to be
    /// parsed.
    pub open spec fn has_room_for(&self, attempts_left: usize, event: DispatchEvent) -> bool {
        match event {
            DispatchEvent::TransportFailure(message) => self.admits(
                transport_outcome(attempts_left, message@).step(),
            ),
            DispatchEvent::BodyUnreadable(_) => self.admits(Step::Failed),
            DispatchEvent::Response(_) => self.admits(Step::Failed) && self.admits(
                Step::Succeeded,
            ),
        }
    }
}

/// Whether `action` sends `request` back for another attempt: it holds the
/// same task with one attempt less, and the backoff delay for that number of
/// attempts left.
pub open spec fn retries(action: DispatchAction, request: APIRequest, max_attempts: usize) -> bool {
    &&& action matches DispatchAction::Retry { delay_secs, request: again }
    &&& request.attempts_left >= 1
    &&& again == request.with_attempts_left((request.attempts_left - 1) as usize)
    &&& delay_secs == backoff_secs(max_attempts, again.attempts_left)
}

/// Whether `action` records the failure of `request` with `error`: it holds
/// the failure record for the error log.
pub open spec fn records_failure(action: DispatchAction, request: APIRequest, error: Json) -> bool {
    &&& action matches DispatchAction::AppendError(record)
    &&& request.input() matches Some(input)
    &&& record@ == failure_record(input, error)
}

/// Whether `action` records a success with the response `body`: it holds
/// the response, as it came, for the results log.
pub open spec fn records_success(action: DispatchAction, body: Json) -> bool {
    &&& action matches DispatchAction::AppendResult(record)
    &&& record@ == body
}

/// Whether `action` is what `outcome` asks for at the end of an attempt on
/// `request`.
pub open spec fn carries_out(
    action: DispatchAction,
    request: APIRequest,
    max_attempts: usize,
    outcome: Outcome,
) -> bool {
    match outcome {
        Outcome::Retry => retries(action, request, max_attempts),
        Outcome::Failure(error) => records_failure(action, request, error),
        Outcome::Success(body) => records_success(action, body),
    }
}

/// A body that reports no errors is a success, also where it holds an empty
/// list of errors, or something under `errors_key()` that is no list.
pub proof fn lemma_success_without_errors(body: Json)
    requires
        match body.member(errors_key()) {
            Some(errors) => errors.array_len() is None || errors.array_len() == Some(0nat),
            None => true,
        },
    ensures
        response_outcome(Ok(body)) == Outcome::Success(body),
{
}

/// A task that starts with `max_attempts` attempts and meets nothing but
/// transport failures is sent `max_attempts` times and no more: its failure
/// number `k` is answered with a retry after 2 to the power of `k` seconds
/// while `k` is below `max_attempts`, and with failure once `k` reaches it.
pub proof fn lemma_retry_budget(max_attempts: usize, k: nat, message: Seq<char>)
    requires
        1 <= k <= max_attempts,
    ensures
        ({
            let attempts_left = (max_attempts - k + 1) as usize;
            let after = (max_attempts - k) as usize;
            &&& k < max_attempts ==> transport_outcome(attempts_left, message) is Retry
                && backoff_secs(max_attempts, after) == pow2(k)
            &&& k == max_attempts ==> transport_outcome(attempts_left, message)
                == Outcome::Failure(Json::Text(message))
        }),
{
}

/// What a parser made of a body, as the value read or the message reported.
pub open spec fn parsed_model(parsed: Result<Document, String>) -> Result<Json, Seq<char>> {
    match parsed {
        Ok(document) => Ok(document@),
        Err(message) => Err(message@),
    }
}

/// What to send for one attempt.
#[derive(Debug)]
pub struct Outgoing {
    pub url: String,
    pub api_key: String,
    pub input: String,
}

/// The errors that a response reports, if it reports any.
pub fn response_errors(body: &Document) -> (r: Option<Document>)
    ensures
        match r {
            Some(errors) => reported_errors(body@) == Some(errors@),
            None => reported_errors(body@) is None,
        },
{
    match body.member("errors") {
        Some(errors) => match errors.array_len() {
            Some(n) => if n > 0 {
                Some(errors)
            } else {
                None
            },
            None => None,
        },
        None => None,
    }
}

/// Builds the record of a failure.
pub fn build_failure_record(input: String, error: Document) -> (r: Document)
    ensures
        r@ == failure_record(input@, error@),
{
    let mut fields = Fields::new();
    fields.insert("input".to_owned(), Document::from_text(input));
    fields.insert("error".to_owned(), error);
    Document::from_fields(fields)
}

/// The seconds to wait before the retry that leaves `attempts_left` attempts
/// of `max_attempts`.
pub fn backoff_delay(max_attempts: usize, attempts_left: usize) -> (r: u64)
    requires
        attempts_left <= max_attempts,
        backoff_secs(max_attempts, attempts_left) <= u64::MAX,
    ensures
        r == backoff_secs(max_attempts, attempts_left),
{
    let exponent: usize = max_attempts - attempts_left;
    let mut delay: u64 = 1;
    let mut k: usize = 0;
    proof {
        lemma2_to64();
        if exponent > 64 {
            lemma_pow2_strictly_increases(64, exponent as nat);
        }
    }
    while k < exponent
        invariant
            k <= exponent < 64,
            delay == pow2(k as nat),
            pow2(64) == 0x1_0000_0000_0000_0000,
        decreases exponent - k,
    {
        proof {
            lemma_pow2_unfold((k + 1) as nat);
            lemma_pow2_strictly_increases((k + 1) as nat, 64);
        }
        delay = delay * 2;
        k = k + 1;
    }
    delay
}

/// Begins an attempt on `request`: picks an endpoint and says what to send to
/// it. The attempt is counted as under way.
pub fn begin_dispatch(
    request: &APIRequest,
    endpoints: &[Endpoint],
    tracker: &mut StatusTracker,
) -> (out: Outgoing)
    requires
        request.input() is Some,
        endpoints@.len() > 0,
        0 < total_weight(endpoints@) <= usize::MAX,
        old(tracker).admits(Step::Began),
    ensures
        final(tracker)@ == old(tracker)@.after(Step::Began),
        request.input() == Some(out.input@),
        exists|i: int, draw: int|
            0 <= draw < total_weight(endpoints@) && #[trigger] selects(endpoints@, draw, i)
                && out.url@ == endpoints@[i].url@ && out.api_key@ == endpoints@[i].api_key@,
{
    let endpoint = select_endpoint(endpoints);
    let input = input_text(&request.request_json).unwrap();
    tracker.record(Step::Began);
    Outgoing { url: endpoint.url.clone(), api_key: endpoint.api_key.clone(), input }
}

/// Ends an attempt that met a transport failure. While the task has another
/// attempt left after this one it is sent back, with one attempt less, after
/// the backoff delay; else the failure is recorded.
pub fn on_transport_failure(
    request: APIRequest,
    message: String,
    tracker: &mut StatusTracker,
    max_attempts: usize,
) -> (action: DispatchAction)
    requires
        request.input() is Some,
        within_budget(request.attempts_left, max_attempts),
        old(tracker).admits(transport_outcome(request.attempts_left, message@).step()),
    ensures
        carries_out(
            action,
            request,
            max_attempts,
            transport_outcome(request.attempts_left, message@),
        ),
        final(tracker)@ == old(tracker)@.after(
            transport_outcome(request.attempts_left, message@).step(),
        ),
{
    let attempts_left = request.attempts_left - 1;
    if attempts_left > 0 {
        let delay_secs = backoff_delay(max_attempts, attempts_left);
        tracker.record(Step::Retried);
        let again = APIRequest { attempts_left, ..request };
        DispatchAction::Retry { delay_secs, request: again }
    } else {
        record_failure(request, Document::from_text(message), tracker)
    }
}

/// Ends an attempt with failure: the task is counted as failed, and the
/// record of the failure goes to the error log.
pub fn record_failure(request: APIRequest, error: Document, tracker: &mut StatusTracker) -> (action:
    DispatchAction)
    requires
        request.input() is Some,
        old(tracker).admits(Step::Failed),
    ensures
        records_failure(action, request, error@),
        final(tracker)@ == old(tracker)@.after(Step::Failed),
{
    let input = input_text(&request.request_json).unwrap();
    tracker.record(Step::Failed);
    DispatchAction::AppendError(build_failure_record(input, error))
}

/// Ends an attempt whose response body could not be read: the task fails, with
/// the transport's message as the error.
pub fn on_unreadable_body(request: APIRequest, message: String, tracker: &mut StatusTracker) -> (action:
    DispatchAction)
    requires
        request.input() is Some,
        old(tracker).admits(Step::Failed),
    ensures
        records_failure(action, request, Json::Text(message@)),
        final(tracker)@ == old(tracker)@.after(Step::Failed),
{
    record_failure(request, Document::from_text(message), tracker)
}

/// Ends an attempt whose response body was handed to the parser, which made
/// `parsed` of it. A body that is no JSON fails the task, with the parser's
/// message as the error; one that reports errors fails it, with those errors;
/// any other succeeds, and is itself the record for the results log.
pub fn on_response(
    request: APIRequest,
    parsed: Result<Document, String>,
    tracker: &mut StatusTracker,
) -> (action: DispatchAction)
    requires
        request.input() is Some,
        old(tracker).admits(response_outcome(parsed_model(parsed)).step()),
    ensures
        match response_outcome(parsed_model(parsed)) {
            Outcome::Failure(error) => records_failure(action, request, error),
            Outcome::Success(body) => records_success(action, body),
            Outcome::Retry => false,
        },
        final(tracker)@ == old(tracker)@.after(response_outcome(parsed_model(parsed)).step()),
{
    match parsed {
        Err(message) => record_failure(request, Document::from_text(message), tracker),
        Ok(body) => match response_errors(&body) {
            Some(errors) => record_failure(request, errors, tracker),
            None => {
                tracker.record(Step::Succeeded);
                DispatchAction::AppendResult(body)
            },
        },
    }
}

/// Ends an attempt on `request`, of which the outside work reported `event`.
///
/// The answer is one action. A transport failure sends the task back while it
/// has another attempt left, and fails it otherwise; an unreadable body, a
/// body that is no JSON and a body that reports errors fail it at once; any
/// other body is a success. The attempt is no longer counted as under way,
/// and a final outcome is counted as a success or a failure.
pub fn conclude(
    request: APIRequest,
    event: DispatchEvent,
    tracker: &mut StatusTracker,
    max_attempts: usize,
) -> (action: DispatchAction)
    requires
        request.input() is Some,
        event is TransportFailure ==> within_budget(request.attempts_left, max_attempts),
        old(tracker).has_room_for(request.attempts_left, event),
    ensures
        carries_out(action, request, max_attempts, outcome(request.attempts_left, event)),
        final(tracker)@ == old(tracker)@.after(outcome(request.attempts_left, event).step()),
{
    match event {
        DispatchEvent::TransportFailure(message) => on_transport_failure(
            request,
            message,
            tracker,
            max_attempts,
        ),
        DispatchEvent::BodyUnreadable(message) => on_unreadable_body(request, message, tracker),
        DispatchEvent::Response(body) => {
            let parsed = Document::parse_slice(body.as_slice());
            on_response(request, parsed, tracker)
        },
    }
}

} // verus!
