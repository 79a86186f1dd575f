//! The decisions of the feeder: which lines become tasks, and at what pace
//! they are put on the channel.
//!
//! The caller reads the lines, puts the tasks on the channel and sleeps
//! between two lines.

use crate::json::{parse_text, Document, Json};
use crate::status::{StatusTracker, Step};
use crate::task::{input_of, input_text, task_id_generator, APIRequest, TaskIdGenerator};
use vstd::prelude::*;

verus! {

/// What the feeder made of one line.
#[derive(Debug)]
pub enum FeedOutcome {
    /// The line is a request document: put the task on the channel.
    Enqueue(APIRequest),
    /// The line is no JSON and is skipped. Holds the parser's message.
    Malformed(String),
    /// The line is JSON, but no object that holds a text to send. No task is
    /// made of it.
    Rejected,
}

/// Whether a line becomes a task: it is JSON, and holds a text to send.
pub open spec fn is_request(line: Seq<char>) -> bool {
    parse_text(line) matches Ok(document) && input_of(document) is Some
}

/// The number of lines among the first `n` that become tasks.
pub open spec fn requests_among(lines: Seq<Seq<char>>, n: int) -> nat
    decreases n,
{
    if n <= 0 {
        0
    } else {
        requests_among(lines, n - 1) + if is_request(lines[n - 1]) {
            1nat
        } else {
            0nat
        }
    }
}

/// Turns lines into tasks.
#[derive(Debug)]
pub struct RequestFeeder {
    ids: TaskIdGenerator,
    max_attempts: usize,
    requests_per_second: usize,
}

impl RequestFeeder {
    /// The id that the next task will get.
    pub closed spec fn next_id(&self) -> nat {
        self.ids@
    }

    /// The attempts that each new task gets.
    pub closed spec fn max_attempts(&self) -> usize {
        self.max_attempts
    }

    /// The number of tasks to put on the channel in a second.
    pub closed spec fn requests_per_second(&self) -> usize {
        self.requests_per_second
    }

    /// Whether a task can still be created: an id is left for it.
    pub open spec fn has_id_left(&self) -> bool {
        self.next_id() < usize::MAX
    }

    /// The feeder after it has created one task: the next id is one higher.
    pub open spec fn advanced(self, after: RequestFeeder) -> bool {
        &&& after.next_id() == self.next_id() + 1
        &&& after.max_attempts() == self.max_attempts()
        &&& after.requests_per_second() == self.requests_per_second()
    }

    /// Whether `task` is the task that this feeder makes of `document`: it has
    /// the next id, all the attempts, the document as its request and as its
    /// original input, and neither metadata nor results.
    pub open spec fn makes(&self, document: Json, task: APIRequest) -> bool {
        &&& task.task_id == self.next_id()
        &&& task.attempts_left == self.max_attempts()
        &&& task.request_json@ == document
        &&& task.original_input@ == document
        &&& task.metadata is None
        &&& task.result@.len() == 0
    }

    /// A feeder that has created no task yet: the first id is 0.
    pub fn new(requests_per_second: usize, max_attempts: usize) -> (r: RequestFeeder)
        ensures
            r.next_id() == 0,
            r.max_attempts() == max_attempts,
            r.requests_per_second() == requests_per_second,
    {
        RequestFeeder { ids: task_id_generator(), max_attempts, requests_per_second }
    }

    /// The id that the next task will get.
    pub fn next_task_id(&self) -> (r: usize)
        ensures
            r == self.next_id(),
    {
        self.ids.peek()
    }

    /// The milliseconds to sleep after each line: a second, shared out over
    /// the requests of a second, rounded down.
    pub fn pacing_interval_ms(&self) -> (r: u64)
        requires
            self.requests_per_second() > 0,
        ensures
            r == 1000int / (self.requests_per_second() as int),
    {
        let interval: usize = 1000 / self.requests_per_second;
        interval as u64
    }

    /// The capacity of the channel: the requests of two seconds.
    pub fn channel_capacity(&self) -> (r: usize)
        requires
            2 * self.requests_per_second() <= usize::MAX,
        ensures
            r == 2 * self.requests_per_second(),
    {
        self.requests_per_second * 2
    }

    /// Creates the task for a request document, and counts it as started.
    pub fn create_task(&mut self, document: Document, tracker: &mut StatusTracker) -> (task: APIRequest)
        requires
            input_of(document@) is Some,
            old(self).has_id_left(),
            old(tracker).admits(Step::Admitted),
        ensures
            old(self).makes(document@, task),
            old(self).advanced(*final(self)),
            final(tracker)@ == old(tracker)@.after(Step::Admitted),
    {
        let task_id = self.ids.next().unwrap();
        let original_input = document.clone();
        tracker.record(Step::Admitted);
        APIRequest {
            task_id,
            request_json: document,
            attempts_left: self.max_attempts,
            metadata: None,
            result: Vec::new(),
            original_input,
        }
    }

    /// Takes one line of the input.
    ///
    /// A line that is a request document becomes a task, which is counted as
    /// started. Any other line leaves the feeder and the counters as they
    /// were: a line that is no JSON is skipped, and a JSON line that holds no
    /// text to send is rejected.
    pub fn feed_line(&mut self, line: &str, tracker: &mut StatusTracker) -> (r: FeedOutcome)
        requires
            old(self).has_id_left(),
            old(tracker).admits(Step::Admitted),
        ensures
            r is Enqueue <==> is_request(line@),
            match parse_text(line@) {
                Ok(document) => if input_of(document) is Some {
                    &&& r matches FeedOutcome::Enqueue(task)
                    &&& old(self).makes(document, task)
                    &&& old(self).advanced(*final(self))
                    &&& final(tracker)@ == old(tracker)@.after(Step::Admitted)
                } else {
                    &&& r is Rejected
                    &&& *final(self) == *old(self)
                    &&& *final(tracker) == *old(tracker)
                },
                Err(message) => {
                    &&& r matches FeedOutcome::Malformed(reported)
                    &&& reported@ == message
                    &&& *final(self) == *old(self)
                    &&& *final(tracker) == *old(tracker)
                },
            },
    {
        match Document::parse_str(line) {
            Ok(document) => {
                if input_text(&document).is_some() {
                    FeedOutcome::Enqueue(self.create_task(document, tracker))
                } else {
                    FeedOutcome::Rejected
                }
            },
            Err(message) => FeedOutcome::Malformed(message),
        }
    }
}

/// Lines that do not become tasks do not count: with any such line taken out
/// of the input, as many tasks are created, so every request line after it
/// gets the id that it would have had without it.
pub proof fn lemma_skipped_line_does_not_count(lines: Seq<Seq<char>>, skipped: int, n: int)
    requires
        0 <= skipped < n <= lines.len(),
        !is_request(lines[skipped]),
    ensures
        requests_among(lines.remove(skipped), n - 1) == requests_among(lines, n),
    decreases n,
{
    let shorter = lines.remove(skipped);
    if skipped == n - 1 {
        lemma_requests_among_prefix(lines, shorter, skipped);
    } else {
        lemma_skipped_line_does_not_count(lines, skipped, n - 1);
        assert(shorter[n - 2] == lines[n - 1]);
    }
}

/// The count over a prefix depends on that prefix alone.
pub proof fn lemma_requests_among_prefix(a: Seq<Seq<char>>, b: Seq<Seq<char>>, n: int)
    requires
        0 <= n <= a.len(),
        n <= b.len(),
        forall|i: int| 0 <= i < n ==> a[i] == b[i],
    ensures
        requests_among(a, n) == requests_among(b, n),
    decreases n,
{
    if n > 0 {
        lemma_requests_among_prefix(a, b, n - 1);
    }
}

} // verus!
