use curl_block::definition::{Curl, Node};
use curl_block::execute::{Action, CurlResult, Event, Execution, Request};
use curl_block::remote_call::{CachedCall, CallAction, CallEvent};
use serde_json::Value;

fn pair(key: &str, value: &str) -> Node {
    Node::Pair { key: key.to_string(), value: value.to_string() }
}

fn definition() -> Curl {
    Curl::parse(&[
        pair("method", "GET"),
        pair("url", "https://example.test/{{id}}"),
        pair("headers_code", "_fun = (env) => { return {}; }"),
        pair("body_code", "_fun = (env) => { return null; }"),
    ])
    .unwrap()
}

fn object(entries: Vec<(&str, Value)>) -> Value {
    let mut map = serde_json::Map::new();
    for (key, value) in entries {
        map.insert(key.to_string(), value);
    }
    Value::Object(map)
}

fn request() -> Request {
    Request {
        method: "GET".to_string(),
        url: "https://example.test/42".to_string(),
        headers: object(vec![]),
        body: Value::Null,
    }
}

fn result(status: u16) -> CurlResult {
    CurlResult { status, body: Some(object(vec![("n", Value::from(status))])), error: None }
}

fn same(a: &CurlResult, b: &CurlResult) -> bool {
    a.status == b.status && a.body == b.body && a.error == b.error
}

fn key(request: &Request) -> (String, String, Value, Value) {
    (
        request.method.clone(),
        request.url.clone(),
        request.headers.clone(),
        request.body.clone(),
    )
}

struct World {
    store: Vec<((String, String, Value, Value), CurlResult)>,
    calls: usize,
    reads: usize,
    next_status: u16,
}

fn world() -> World {
    World { store: Vec::new(), calls: 0, reads: 0, next_status: 200 }
}

fn perform(world: &mut World, request: &Request, use_cache: bool) -> Result<CurlResult, String> {
    let mut call = CachedCall::start(request.clone(), use_cache);
    loop {
        let event = match call.action() {
            CallAction::Lookup { request } => {
                world.reads += 1;
                let wanted = key(request);
                match world.store.iter().find(|(stored, _)| *stored == wanted) {
                    Some((_, found)) => CallEvent::Found(found.clone()),
                    None => CallEvent::NotFound,
                }
            }
            CallAction::Perform { .. } => {
                world.calls += 1;
                let status = world.next_status;
                world.next_status += 1;
                CallEvent::Responded(result(status))
            }
            CallAction::Return { request, result, store } => {
                if store {
                    let wanted = key(request);
                    world.store.retain(|(stored, _)| *stored != wanted);
                    world.store.push((wanted, result.clone()));
                }
                break;
            }
            CallAction::Fail { .. } => break,
        };
        call = call.step(event);
    }
    call.outcome().unwrap()
}

fn execute(world: &mut World, config: Option<&Value>) -> CurlResult {
    let mut execution = Execution::start(definition(), config);
    loop {
        let event = match execution.action() {
            Action::RunScript { code, .. } => {
                if code.contains("return {}") {
                    Event::ScriptReturned(object(vec![]))
                } else {
                    Event::ScriptReturned(Value::Null)
                }
            }
            Action::ResolveUrl { template } => Event::UrlResolved(template.replace("{{id}}", "42")),
            Action::Call { request, use_cache } => match perform(world, request, use_cache) {
                Ok(result) => Event::CallCompleted(result),
                Err(message) => Event::TransportFailed(message),
            },
            Action::Return { .. } => break,
            Action::Fail { error } => panic!("{}", error.message()),
        };
        execution = execution.step(event);
    }
    execution.outcome().unwrap().unwrap()
}

#[test]
fn first_run_makes_the_call_and_fills_the_store() {
    let mut world = world();
    let first = execute(&mut world, None);
    assert_eq!(first.status, 200);
    assert_eq!(first.body, Some(object(vec![("n", Value::from(200))])));
    assert_eq!(first.error, None);
    assert_eq!(world.calls, 1);
    assert_eq!(world.reads, 1);
    assert_eq!(world.store.len(), 1);
    assert_eq!(world.store[0].0, key(&request()));
    assert!(same(&world.store[0].1, &first));
}

#[test]
fn second_run_is_served_from_the_store() {
    let mut world = world();
    let first = execute(&mut world, None);
    let second = execute(&mut world, None);
    assert_eq!(world.calls, 1);
    assert_eq!(world.reads, 2);
    assert_eq!(world.store.len(), 1);
    assert!(same(&first, &second));
}

#[test]
fn bypass_calls_again_and_does_not_read() {
    let mut world = world();
    let first = execute(&mut world, None);
    let config = object(vec![("use_cache", Value::Bool(false))]);
    let second = execute(&mut world, Some(&config));
    assert_eq!(world.calls, 2);
    assert_eq!(world.reads, 1);
    assert_eq!(first.status, 200);
    assert_eq!(second.status, 201);
}

#[test]
fn bypass_still_writes_the_store() {
    let mut world = world();
    let config = object(vec![("use_cache", Value::Bool(false))]);
    let fresh = execute(&mut world, Some(&config));
    assert_eq!(world.store.len(), 1);
    assert!(same(&world.store[0].1, &fresh));
    let served = execute(&mut world, None);
    assert_eq!(world.calls, 1);
    assert!(same(&served, &fresh));
}

#[test]
fn call_with_cache_asks_the_store_first() {
    let call = CachedCall::start(request(), true);
    assert!(!call.finished());
    assert!(matches!(call.action(), CallAction::Lookup { request: r } if key(r) == key(&request())));
}

#[test]
fn call_without_cache_goes_straight_to_the_call() {
    let call = CachedCall::start(request(), false);
    assert!(!call.finished());
    assert!(matches!(call.action(), CallAction::Perform { request: r } if key(r) == key(&request())));
}

#[test]
fn hit_is_returned_and_not_stored_again() {
    let call = CachedCall::start(request(), true).step(CallEvent::Found(result(200)));
    assert!(call.finished());
    match call.action() {
        CallAction::Return { request: r, result: found, store } => {
            assert_eq!(key(r), key(&request()));
            assert!(same(found, &result(200)));
            assert!(!store);
        }
        other => panic!("{:?}", other),
    }
    assert!(same(&call.outcome().unwrap().unwrap(), &result(200)));
}

#[test]
fn miss_leads_to_the_call_and_to_a_write() {
    let call = CachedCall::start(request(), true).step(CallEvent::NotFound);
    assert!(matches!(call.action(), CallAction::Perform { .. }));
    let call = call.step(CallEvent::Responded(result(404)));
    match call.action() {
        CallAction::Return { request: r, result: fresh, store } => {
            assert_eq!(key(r), key(&request()));
            assert!(same(fresh, &result(404)));
            assert!(store);
        }
        other => panic!("{:?}", other),
    }
}

#[test]
fn failure_of_store_or_call_fails_the_call() {
    let call = CachedCall::start(request(), true).step(CallEvent::Failed("store down".to_string()));
    assert!(call.finished());
    assert!(matches!(call.action(), CallAction::Fail { message: "store down" }));
    assert_eq!(call.outcome().unwrap().unwrap_err(), "store down");
    let call = CachedCall::start(request(), false).step(CallEvent::Failed("refused".to_string()));
    assert_eq!(call.outcome().unwrap().unwrap_err(), "refused");
}

#[test]
fn stray_call_event_changes_nothing() {
    let call = CachedCall::start(request(), false)
        .step(CallEvent::Found(result(200)))
        .step(CallEvent::NotFound);
    assert!(matches!(call.action(), CallAction::Perform { .. }));
    let call = CachedCall::start(request(), true).step(CallEvent::Responded(result(200)));
    assert!(matches!(call.action(), CallAction::Lookup { .. }));
    assert!(call.outcome().is_none());
    let call = CachedCall::start(request(), true)
        .step(CallEvent::Found(result(200)))
        .step(CallEvent::Responded(result(500)))
        .step(CallEvent::Failed("late".to_string()));
    assert!(same(&call.outcome().unwrap().unwrap(), &result(200)));
}

#[test]
fn call_keeps_its_request() {
    let call = CachedCall::start(request(), true).step(CallEvent::NotFound);
    assert_eq!(key(call.request()), key(&request()));
}
