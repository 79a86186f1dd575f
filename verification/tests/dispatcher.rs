use batch_dispatcher::{
    backoff_delay, begin_dispatch, build_failure_record, conclude, on_response,
    on_transport_failure, on_unreadable_body, record_failure, response_errors, APIRequest,
    DispatchAction, DispatchEvent, Document, Endpoint, FeedOutcome, RequestFeeder, StatusTracker,
};

fn task(input_line: &str, max_attempts: usize, tracker: &mut StatusTracker) -> APIRequest {
    let mut feeder = RequestFeeder::new(10, max_attempts);
    match feeder.feed_line(input_line, tracker) {
        FeedOutcome::Enqueue(task) => task,
        other => panic!("no task: {:?}", other),
    }
}

fn endpoints() -> Vec<Endpoint> {
    vec![Endpoint {
        url: "https://api.example.com/endpoint".to_string(),
        api_key: "k".to_string(),
        weight: 20,
    }]
}

fn response(body: &str) -> DispatchEvent {
    DispatchEvent::Response(body.as_bytes().to_vec())
}

fn error_record(action: DispatchAction) -> String {
    match action {
        DispatchAction::AppendError(record) => record.to_text(),
        other => panic!("no error record: {:?}", other),
    }
}

fn result_record(action: DispatchAction) -> String {
    match action {
        DispatchAction::AppendResult(record) => record.to_text(),
        other => panic!("no result record: {:?}", other),
    }
}

#[test]
fn begin_dispatch_says_what_to_send_and_counts_the_attempt() {
    let mut tracker = StatusTracker::new();
    let request = task("{\"input\": \"ping\"}", 3, &mut tracker);
    let out = begin_dispatch(&request, &endpoints(), &mut tracker);
    assert_eq!(out.url, "https://api.example.com/endpoint");
    assert_eq!(out.api_key, "k");
    assert_eq!(out.input, "ping");
    assert_eq!(tracker.num_tasks_started, 1);
    assert_eq!(tracker.num_tasks_in_progress, 1);
}

#[test]
fn backoff_doubles_with_each_attempt_used_up() {
    assert_eq!(backoff_delay(3, 3), 1);
    assert_eq!(backoff_delay(3, 2), 2);
    assert_eq!(backoff_delay(3, 1), 4);
    assert_eq!(backoff_delay(10, 1), 512);
    assert_eq!(backoff_delay(63, 0), 1u64 << 63);
    assert_eq!(backoff_delay(100, 90), 1024);
}

#[test]
fn three_transport_failures_use_up_three_attempts() {
    let mut tracker = StatusTracker::new();
    let mut request = task("{\"input\": \"ping\"}", 3, &mut tracker);
    let mut delays = Vec::new();
    let mut attempts = 0;
    let last = loop {
        begin_dispatch(&request, &endpoints(), &mut tracker);
        attempts += 1;
        assert_eq!(tracker.num_tasks_in_progress, 1);
        let event = DispatchEvent::TransportFailure("connection refused".to_string());
        match conclude(request, event, &mut tracker, 3) {
            DispatchAction::Retry { delay_secs, request: again } => {
                assert_eq!(again.task_id, 0);
                assert_eq!(again.attempts_left, 3 - attempts);
                assert_eq!(again.original_input.to_text(), "{\"input\":\"ping\"}");
                assert_eq!(tracker.num_tasks_in_progress, 0);
                assert_eq!(tracker.num_tasks_failed, 0);
                delays.push(delay_secs);
                request = again;
            }
            other => break other,
        }
    };
    assert_eq!(attempts, 3);
    assert_eq!(delays, vec![2, 4]);
    assert_eq!(error_record(last), "{\"error\":\"connection refused\",\"input\":\"ping\"}");
    assert_eq!(tracker.num_tasks_started, 1);
    assert_eq!(tracker.num_tasks_failed, 1);
    assert_eq!(tracker.num_tasks_succeeded, 0);
    assert_eq!(tracker.num_tasks_in_progress, 0);
}

#[test]
fn a_task_with_one_attempt_is_not_retried() {
    let mut tracker = StatusTracker::new();
    let request = task("{\"input\": \"once\"}", 1, &mut tracker);
    tracker.dispatch_began();
    let action = on_transport_failure(request, "timed out".to_string(), &mut tracker, 1);
    assert_eq!(error_record(action), "{\"error\":\"timed out\",\"input\":\"once\"}");
    assert_eq!(tracker.num_tasks_failed, 1);
    assert_eq!(tracker.num_tasks_in_progress, 0);
}

#[test]
fn an_empty_list_of_errors_is_a_success() {
    let mut tracker = StatusTracker::new();
    let request = task("{\"input\": \"ping\"}", 3, &mut tracker);
    tracker.dispatch_began();
    let action = conclude(request, response("{\"errors\": []}"), &mut tracker, 3);
    assert_eq!(result_record(action), "{\"errors\":[]}");
    assert_eq!(tracker.num_tasks_succeeded, 1);
    assert_eq!(tracker.num_tasks_failed, 0);
    assert_eq!(tracker.num_tasks_in_progress, 0);
}

#[test]
fn a_response_without_errors_is_written_as_it_is() {
    let mut tracker = StatusTracker::new();
    let request = task("{\"input\": \"ping\"}", 3, &mut tracker);
    tracker.dispatch_began();
    let body = "{\"id\": \"r1\", \"choices\": [{\"text\": \"pong\"}], \"usage\": 12.5}";
    let action = conclude(request, response(body), &mut tracker, 3);
    assert_eq!(
        result_record(action),
        "{\"choices\":[{\"text\":\"pong\"}],\"id\":\"r1\",\"usage\":12.5}"
    );
    assert_eq!(tracker.num_tasks_succeeded, 1);
    assert_eq!(tracker.num_tasks_in_progress, 0);
}

#[test]
fn errors_that_are_no_list_do_not_fail_the_task() {
    for body in ["{\"errors\": \"bad\"}", "{\"errors\": null}", "{\"errors\": {\"a\": 1}}", "[]", "3"] {
        let mut tracker = StatusTracker::new();
        let request = task("{\"input\": \"ping\"}", 3, &mut tracker);
        tracker.dispatch_began();
        let action = conclude(request, response(body), &mut tracker, 3);
        assert!(matches!(action, DispatchAction::AppendResult(_)), "{}", body);
        assert_eq!(tracker.num_tasks_succeeded, 1);
    }
}

#[test]
fn reported_errors_fail_the_task_at_once() {
    let mut tracker = StatusTracker::new();
    let request = task("{\"input\": \"ping\"}", 3, &mut tracker);
    tracker.dispatch_began();
    let body = "{\"errors\": [{\"code\": 429, \"message\": \"slow down\"}], \"id\": 1}";
    let action = conclude(request, response(body), &mut tracker, 3);
    assert_eq!(
        error_record(action),
        "{\"error\":[{\"code\":429,\"message\":\"slow down\"}],\"input\":\"ping\"}"
    );
    assert_eq!(tracker.num_tasks_failed, 1);
    assert_eq!(tracker.num_tasks_succeeded, 0);
    assert_eq!(tracker.num_tasks_in_progress, 0);
}

#[test]
fn a_body_that_is_no_json_fails_the_task_at_once() {
    let mut tracker = StatusTracker::new();
    let request = task("{\"input\": \"ping\"}", 3, &mut tracker);
    tracker.dispatch_began();
    let action = conclude(request, response("<html>502</html>"), &mut tracker, 3);
    assert_eq!(
        error_record(action),
        "{\"error\":\"expected value at line 1 column 1\",\"input\":\"ping\"}"
    );
    assert_eq!(tracker.num_tasks_failed, 1);
    assert_eq!(tracker.num_tasks_in_progress, 0);
}

#[test]
fn an_unreadable_body_fails_the_task_at_once() {
    let mut tracker = StatusTracker::new();
    let request = task("{\"input\": \"ping\"}", 3, &mut tracker);
    tracker.dispatch_began();
    let event = DispatchEvent::BodyUnreadable("connection reset".to_string());
    let action = conclude(request, event, &mut tracker, 3);
    assert_eq!(error_record(action), "{\"error\":\"connection reset\",\"input\":\"ping\"}");
    assert_eq!(tracker.num_tasks_failed, 1);
    assert_eq!(tracker.num_tasks_in_progress, 0);
}

#[test]
fn on_unreadable_body_records_the_message() {
    let mut tracker = StatusTracker::new();
    let request = task("{\"input\": \"a \\\"b\\\"\"}", 2, &mut tracker);
    tracker.dispatch_began();
    let action = on_unreadable_body(request, "eof".to_string(), &mut tracker);
    assert_eq!(error_record(action), "{\"error\":\"eof\",\"input\":\"a \\\"b\\\"\"}");
}

#[test]
fn on_response_takes_what_the_parser_made_of_the_body() {
    let mut tracker = StatusTracker::new();
    let request = task("{\"input\": \"ping\"}", 3, &mut tracker);
    tracker.dispatch_began();
    let action = on_response(request, Err("no json".to_string()), &mut tracker);
    assert_eq!(error_record(action), "{\"error\":\"no json\",\"input\":\"ping\"}");

    let request = task("{\"input\": \"ping\"}", 3, &mut tracker);
    tracker.dispatch_began();
    let parsed = Document::parse_str("{\"ok\": true}");
    let action = on_response(request, parsed, &mut tracker);
    assert_eq!(result_record(action), "{\"ok\":true}");

    let request = task("{\"input\": \"ping\"}", 3, &mut tracker);
    tracker.dispatch_began();
    let parsed = Document::parse_str("{\"errors\": [1]}");
    let action = on_response(request, parsed, &mut tracker);
    assert_eq!(error_record(action), "{\"error\":[1],\"input\":\"ping\"}");
    assert_eq!(tracker.num_tasks_failed, 2);
    assert_eq!(tracker.num_tasks_succeeded, 1);
}

#[test]
fn record_failure_counts_and_builds_the_record() {
    let mut tracker = StatusTracker::new();
    let request = task("{\"input\": \"ping\", \"extra\": 1}", 3, &mut tracker);
    tracker.dispatch_began();
    let error = Document::parse_str("[\"a\", \"b\"]").unwrap();
    let action = record_failure(request, error, &mut tracker);
    assert_eq!(error_record(action), "{\"error\":[\"a\",\"b\"],\"input\":\"ping\"}");
    assert_eq!(tracker.num_tasks_failed, 1);
}

#[test]
fn response_errors_are_a_list_with_something_in_it() {
    let errors = response_errors(&Document::parse_str("{\"errors\": [\"x\"]}").unwrap());
    assert_eq!(errors.unwrap().to_text(), "[\"x\"]");
    for body in ["{\"errors\": []}", "{\"errors\": \"x\"}", "{\"error\": [\"x\"]}", "{}", "[\"errors\"]"] {
        assert!(response_errors(&Document::parse_str(body).unwrap()).is_none(), "{}", body);
    }
}

#[test]
fn failure_record_holds_the_input_and_the_error() {
    let record = build_failure_record(
        "line one\nline two".to_string(),
        Document::from_text("boom".to_string()),
    );
    assert_eq!(record.to_text(), "{\"error\":\"boom\",\"input\":\"line one\\nline two\"}");
    assert_eq!(record.member("input").unwrap().as_text(), Some("line one\nline two".to_string()));
    assert_eq!(record.member("error").unwrap().as_text(), Some("boom".to_string()));
}

#[test]
fn every_final_outcome_appends_one_record() {
    let mut tracker = StatusTracker::new();
    let mut feeder = RequestFeeder::new(10, 2);
    let lines = ["{\"input\": \"a\"}", "oops", "{\"input\": \"b\"}", "{\"input\": \"c\"}", "[]"];
    let mut queue = Vec::new();
    for line in lines {
        if let FeedOutcome::Enqueue(task) = feeder.feed_line(line, &mut tracker) {
            queue.push(task);
        }
    }
    assert_eq!(tracker.num_tasks_started, 3);
    let mut results = 0;
    let mut errors = 0;
    let mut attempts = 0;
    while let Some(request) = queue.pop() {
        begin_dispatch(&request, &endpoints(), &mut tracker);
        attempts += 1;
        let event = match (request.task_id, request.attempts_left) {
            (0, _) => response("{\"answer\": 1}"),
            (1, 2) => DispatchEvent::TransportFailure("down".to_string()),
            (1, _) => response("{\"errors\": [\"still down\"]}"),
            (_, _) => DispatchEvent::TransportFailure("down".to_string()),
        };
        match conclude(request, event, &mut tracker, 2) {
            DispatchAction::Retry { request, .. } => queue.push(request),
            DispatchAction::AppendError(_) => errors += 1,
            DispatchAction::AppendResult(_) => results += 1,
        }
        assert_eq!(
            tracker.num_tasks_started,
            tracker.num_tasks_succeeded + tracker.num_tasks_failed + queue.len()
        );
        assert_eq!(tracker.num_tasks_in_progress, 0);
    }
    assert_eq!(attempts, 5);
    assert_eq!(results, 1);
    assert_eq!(errors, 2);
    assert_eq!(tracker.num_tasks_succeeded, 1);
    assert_eq!(tracker.num_tasks_failed, 2);
    assert_eq!(tracker.num_tasks_started, tracker.num_tasks_succeeded + tracker.num_tasks_failed);
}
