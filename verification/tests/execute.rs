use curl_block::definition::{Curl, Node};
use curl_block::execute::{
    Action, CurlResult, Event, ExecError, Execution, ScriptError, Stage, SCRIPT_TIMEOUT_SECS,
};
use serde_json::Value;

fn pair(key: &str, value: &str) -> Node {
    Node::Pair { key: key.to_string(), value: value.to_string() }
}

fn definition() -> Curl {
    Curl::parse(&[
        pair("method", "GET"),
        pair("url", "https://example.test/{{id}}"),
        pair("headers_code", "_fun = (env) => { return {}; }"),
        pair("body_code", "_fun = (env) => { return null; }"),
    ])
    .unwrap()
}

fn object(entries: Vec<(&str, Value)>) -> Value {
    let mut map = serde_json::Map::new();
    for (key, value) in entries {
        map.insert(key.to_string(), value);
    }
    Value::Object(map)
}

fn empty_object() -> Value {
    object(vec![])
}

fn ok_result() -> CurlResult {
    CurlResult {
        status: 200,
        body: Some(object(vec![("answer", Value::from(42))])),
        error: None,
    }
}

fn failure(timed_out: bool, message: &str) -> ScriptError {
    ScriptError { timed_out, message: message.to_string() }
}

fn at_body() -> Execution {
    Execution::start(definition(), None).step(Event::ScriptReturned(empty_object()))
}

fn at_url() -> Execution {
    at_body().step(Event::ScriptReturned(Value::Null))
}

fn at_call() -> Execution {
    at_url().step(Event::UrlResolved("https://example.test/42".to_string()))
}

#[test]
fn execution_starts_with_the_headers_code() {
    let execution = Execution::start(definition(), None);
    assert!(!execution.finished());
    assert!(matches!(execution.stage(), Stage::Headers));
    match execution.action() {
        Action::RunScript { code, entry_point, timeout_secs } => {
            assert_eq!(code, "_fun = (env) => { return {}; }");
            assert_eq!(entry_point, "_fun");
            assert_eq!(timeout_secs, 10);
            assert_eq!(SCRIPT_TIMEOUT_SECS, 10);
        }
        other => panic!("{:?}", other),
    }
}

#[test]
fn execution_runs_the_body_code_after_the_headers_code() {
    let execution = at_body();
    assert!(matches!(execution.stage(), Stage::Body { headers } if *headers == empty_object()));
    match execution.action() {
        Action::RunScript { code, entry_point, timeout_secs } => {
            assert_eq!(code, "_fun = (env) => { return null; }");
            assert_eq!(entry_point, "_fun");
            assert_eq!(timeout_secs, 10);
        }
        other => panic!("{:?}", other),
    }
}

#[test]
fn execution_resolves_the_url_after_both_snippets() {
    let execution = at_url();
    match execution.action() {
        Action::ResolveUrl { template } => assert_eq!(template, "https://example.test/{{id}}"),
        other => panic!("{:?}", other),
    }
}

#[test]
fn end_to_end_without_configuration() {
    let execution = at_call();
    assert!(execution.use_cache());
    match execution.action() {
        Action::Call { request, use_cache } => {
            assert_eq!(request.method, "GET");
            assert_eq!(request.url, "https://example.test/42");
            assert_eq!(request.headers, empty_object());
            assert_eq!(request.body, Value::Null);
            assert!(use_cache);
        }
        other => panic!("{:?}", other),
    }
    let execution = execution.step(Event::CallCompleted(ok_result()));
    assert!(execution.finished());
    match execution.action() {
        Action::Return { result } => {
            assert_eq!(result.status, 200);
            assert_eq!(result.body, Some(object(vec![("answer", Value::from(42))])));
            assert_eq!(result.error, None);
        }
        other => panic!("{:?}", other),
    }
    let result = execution.outcome().unwrap().unwrap();
    assert_eq!(result.status, 200);
    assert_eq!(result.body, Some(object(vec![("answer", Value::from(42))])));
    assert_eq!(result.error, None);
}

#[test]
fn use_cache_false_reaches_the_executor() {
    let config = object(vec![("use_cache", Value::Bool(false))]);
    let execution = Execution::start(definition(), Some(&config))
        .step(Event::ScriptReturned(empty_object()))
        .step(Event::ScriptReturned(Value::Null))
        .step(Event::UrlResolved("https://example.test/42".to_string()));
    assert!(!execution.use_cache());
    assert!(matches!(execution.action(), Action::Call { use_cache: false, .. }));
}

#[test]
fn use_cache_absent_reaches_the_executor_as_true() {
    let config = object(vec![("model", Value::from("x"))]);
    let execution = Execution::start(definition(), Some(&config))
        .step(Event::ScriptReturned(empty_object()))
        .step(Event::ScriptReturned(Value::Null))
        .step(Event::UrlResolved("https://example.test/42".to_string()));
    assert!(execution.use_cache());
    assert!(matches!(execution.action(), Action::Call { use_cache: true, .. }));
}

#[test]
fn use_cache_of_another_type_reaches_the_executor_as_true() {
    let config = object(vec![("use_cache", Value::from("false"))]);
    let execution = Execution::start(definition(), Some(&config));
    assert!(execution.use_cache());
}

#[test]
fn headers_timeout_fails_the_execution() {
    let execution = Execution::start(definition(), None)
        .step(Event::ScriptFailed(failure(true, "execution terminated")));
    assert!(execution.finished());
    match execution.action() {
        Action::Fail { error } => {
            assert!(matches!(error, ExecError::HeadersCode(_)));
            assert!(error.is_timeout());
            assert_eq!(error.message(), "Error in headers code: execution terminated");
        }
        other => panic!("{:?}", other),
    }
}

#[test]
fn headers_failure_does_not_wait_for_the_body_code() {
    let failed = Execution::start(definition(), None)
        .step(Event::ScriptFailed(failure(true, "execution terminated")));
    let after_success = failed.clone().step(Event::ScriptReturned(Value::Null));
    let after_failure = failed.clone().step(Event::ScriptFailed(failure(false, "boom")));
    for execution in [failed, after_success, after_failure] {
        let error = execution.outcome().unwrap().unwrap_err();
        assert!(matches!(error, ExecError::HeadersCode(_)));
        assert!(error.is_timeout());
        assert_eq!(error.message(), "Error in headers code: execution terminated");
    }
}

#[test]
fn headers_script_error_is_no_timeout() {
    let execution = Execution::start(definition(), None)
        .step(Event::ScriptFailed(failure(false, "ReferenceError: _fun is not defined")));
    let error = execution.outcome().unwrap().unwrap_err();
    assert!(matches!(error, ExecError::HeadersCode(_)));
    assert!(!error.is_timeout());
    assert_eq!(
        error.message(),
        "Error in headers code: ReferenceError: _fun is not defined"
    );
}

#[test]
fn body_failure_fails_the_execution() {
    let execution = at_body().step(Event::ScriptFailed(failure(false, "boom")));
    let error = execution.outcome().unwrap().unwrap_err();
    assert!(matches!(error, ExecError::BodyCode(_)));
    assert!(!error.is_timeout());
    assert_eq!(error.message(), "Error in body code: boom");
}

#[test]
fn body_timeout_is_a_timeout() {
    let execution = at_body().step(Event::ScriptFailed(failure(true, "too slow")));
    let error = execution.outcome().unwrap().unwrap_err();
    assert!(matches!(error, ExecError::BodyCode(_)));
    assert!(error.is_timeout());
    assert_eq!(error.message(), "Error in body code: too slow");
}

#[test]
fn dispatch_failure_is_handed_on_as_it_is() {
    let execution = Execution::start(definition(), None)
        .step(Event::DispatchFailed("task 7 panicked".to_string()));
    let error = execution.outcome().unwrap().unwrap_err();
    assert!(matches!(error, ExecError::Dispatch(_)));
    assert_eq!(error.message(), "task 7 panicked");
    let execution = at_body().step(Event::DispatchFailed("pool is gone".to_string()));
    let error = execution.outcome().unwrap().unwrap_err();
    assert!(matches!(error, ExecError::Dispatch(_)));
    assert_eq!(error.message(), "pool is gone");
}

#[test]
fn unresolved_variable_fails_the_execution() {
    let execution = at_url().step(Event::UrlFailed("`id` is not defined".to_string()));
    let error = execution.outcome().unwrap().unwrap_err();
    assert!(matches!(error, ExecError::Template(_)));
    assert!(!error.is_timeout());
    assert_eq!(error.message(), "`id` is not defined");
}

#[test]
fn rejected_request_fails_the_execution() {
    let execution = at_call().step(Event::RequestRejected("invalid method".to_string()));
    let error = execution.outcome().unwrap().unwrap_err();
    assert!(matches!(error, ExecError::Request(_)));
    assert_eq!(error.message(), "invalid method");
}

#[test]
fn transport_failure_fails_the_execution() {
    let execution = at_call().step(Event::TransportFailed("connection refused".to_string()));
    let error = execution.outcome().unwrap().unwrap_err();
    assert!(matches!(error, ExecError::Transport(_)));
    assert_eq!(error.message(), "connection refused");
}

#[test]
fn result_with_an_error_field_is_a_result() {
    let result = CurlResult { status: 500, body: None, error: Some("upstream".to_string()) };
    let execution = at_call().step(Event::CallCompleted(result));
    let result = execution.outcome().unwrap().unwrap();
    assert_eq!(result.status, 500);
    assert_eq!(result.body, None);
    assert_eq!(result.error, Some("upstream".to_string()));
}

#[test]
fn stray_event_changes_nothing() {
    let execution = Execution::start(definition(), None)
        .step(Event::UrlResolved("https://example.test/42".to_string()))
        .step(Event::CallCompleted(ok_result()))
        .step(Event::TransportFailed("x".to_string()));
    assert!(matches!(execution.stage(), Stage::Headers));
    let execution = at_url().step(Event::ScriptReturned(Value::Bool(true)));
    assert!(matches!(
        execution.stage(),
        Stage::Url { headers, body } if *headers == empty_object() && *body == Value::Null
    ));
    let execution = at_call().step(Event::DispatchFailed("x".to_string()));
    assert!(matches!(execution.stage(), Stage::Call { .. }));
}

#[test]
fn pending_execution_has_no_outcome() {
    assert!(Execution::start(definition(), None).outcome().is_none());
    assert!(at_body().outcome().is_none());
    assert!(at_url().outcome().is_none());
    assert!(at_call().outcome().is_none());
}

#[test]
fn finished_execution_stays_as_it_is() {
    let done = at_call().step(Event::CallCompleted(ok_result()));
    let later = done
        .step(Event::TransportFailed("late".to_string()))
        .step(Event::ScriptFailed(failure(true, "late")));
    let result = later.outcome().unwrap().unwrap();
    assert_eq!(result.status, 200);
}

#[test]
fn execution_keeps_its_definition() {
    let execution = at_call();
    assert_eq!(execution.block().method(), "GET");
    assert_eq!(execution.block().inner_hash(), definition().inner_hash());
}
