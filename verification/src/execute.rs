//! One execution of a remote-call block, as a state machine.
//!
//! The work that an execution needs from outside (running a code snippet in
//! the sandbox, filling in the URL template, the remote call) is handed out
//! as an [`Action`], and its outcome comes back as an [`Event`]. What the
//! block decides in between is [`Execution::step`].

use crate::config::{deref_option, resolve_use_cache, use_cache_of};
use crate::definition::{Curl, CurlView};
use serde_json::Value;
use vstd::prelude::*;
use vstd::string::StringExecFns;

verus! {

/// The seconds that one code snippet may run.
pub const SCRIPT_TIMEOUT_SECS: u64 = 10;

/// The name of the function that a code snippet has to define.
pub open spec fn entry_point() -> Seq<char> {
    "_fun"@
}

/// Why the sandbox gave no value for a code snippet.
#[derive(Debug, Clone)]
pub struct ScriptError {
    /// Whether the snippet was stopped because it ran out of time.
    pub timed_out: bool,
    /// The sandbox's own message.
    pub message: String,
}

/// What a [`ScriptError`] holds, as a mathematical value.
pub struct ScriptErrorView {
    pub timed_out: bool,
    pub message: Seq<char>,
}

impl View for ScriptError {
    type V = ScriptErrorView;

    open spec fn view(&self) -> ScriptErrorView {
        ScriptErrorView { timed_out: self.timed_out, message: self.message@ }
    }
}

/// Why an execution gave no result.
#[derive(Debug, Clone)]
pub enum ExecError {
    /// The headers code failed or ran out of time.
    HeadersCode(ScriptError),
    /// The body code failed or ran out of time.
    BodyCode(ScriptError),
    /// A code snippet could not be handed to a worker.
    Dispatch(String),
    /// The URL template names a variable that has no value.
    Template(String),
    /// The request could not be built from the resolved parts.
    Request(String),
    /// The remote call itself failed.
    Transport(String),
}

/// What an [`ExecError`] holds, as a mathematical value.
pub enum ExecErrorView {
    HeadersCode(ScriptErrorView),
    BodyCode(ScriptErrorView),
    Dispatch(Seq<char>),
    Template(Seq<char>),
    Request(Seq<char>),
    Transport(Seq<char>),
}

impl View for ExecError {
    type V = ExecErrorView;

    open spec fn view(&self) -> ExecErrorView {
        match self {
            ExecError::HeadersCode(error) => ExecErrorView::HeadersCode(error@),
            ExecError::BodyCode(error) => ExecErrorView::BodyCode(error@),
            ExecError::Dispatch(message) => ExecErrorView::Dispatch(message@),
            ExecError::Template(message) => ExecErrorView::Template(message@),
            ExecError::Request(message) => ExecErrorView::Request(message@),
            ExecError::Transport(message) => ExecErrorView::Transport(message@),
        }
    }
}

impl ExecErrorView {
    /// The text of the error: a failure of a code snippet says which of the
    /// two snippets it was, every other failure is the cause's own message.
    pub open spec fn message(self) -> Seq<char> {
        match self {
            ExecErrorView::HeadersCode(error) => "Error in headers code: "@ + error.message,
            ExecErrorView::BodyCode(error) => "Error in body code: "@ + error.message,
            ExecErrorView::Dispatch(message) => message,
            ExecErrorView::Template(message) => message,
            ExecErrorView::Request(message) => message,
            ExecErrorView::Transport(message) => message,
        }
    }

    /// Whether the error is one of a code snippet that ran out of time.
    pub open spec fn is_timeout(self) -> bool {
        match self {
            ExecErrorView::HeadersCode(error) => error.timed_out,
            ExecErrorView::BodyCode(error) => error.timed_out,
            _ => false,
        }
    }
}

impl ExecError {
    /// The text of the error.
    pub fn message(&self) -> (text: String)
        ensures
            text@ == self@.message(),
    {
        match self {
            ExecError::HeadersCode(error) => {
                let mut text = String::from_str("Error in headers code: ");
                text.append(error.message.as_str());
                text
            },
            ExecError::BodyCode(error) => {
                let mut text = String::from_str("Error in body code: ");
                text.append(error.message.as_str());
                text
            },
            ExecError::Dispatch(message) => message.clone(),
            ExecError::Template(message) => message.clone(),
            ExecError::Request(message) => message.clone(),
            ExecError::Transport(message) => message.clone(),
        }
    }

    /// Whether the error is one of a code snippet that ran out of time.
    pub fn is_timeout(&self) -> (timed_out: bool)
        ensures
            timed_out == self@.is_timeout(),
    {
        match self {
            ExecError::HeadersCode(error) => error.timed_out,
            ExecError::BodyCode(error) => error.timed_out,
            _ => false,
        }
    }
}

/// A request with nothing left to compute.
#[derive(Debug, Clone)]
pub struct Request {
    pub method: String,
    pub url: String,
    pub headers: Value,
    pub body: Value,
}

/// What a [`Request`] holds, as a mathematical value.
pub struct RequestView {
    pub method: Seq<char>,
    pub url: Seq<char>,
    pub headers: Value,
    pub body: Value,
}

impl View for Request {
    type V = RequestView;

    open spec fn view(&self) -> RequestView {
        RequestView {
            method: self.method@,
            url: self.url@,
            headers: self.headers,
            body: self.body,
        }
    }
}

/// The outcome of a remote call that was made, or of an earlier one that the
/// store still had.
#[derive(Debug, Clone)]
pub struct CurlResult {
    pub status: u16,
    pub body: Option<Value>,
    pub error: Option<String>,
}

/// What a [`CurlResult`] holds, as a mathematical value.
pub struct CurlResultView {
    pub status: u16,
    pub body: Option<Value>,
    pub error: Option<Seq<char>>,
}

impl View for CurlResult {
    type V = CurlResultView;

    open spec fn view(&self) -> CurlResultView {
        CurlResultView {
            status: self.status,
            body: self.body,
            error: match self.error {
                Some(error) => Some(error@),
                None => None,
            },
        }
    }
}

/// The outcome of the work that an [`Action`] asked for.
#[derive(Debug, Clone)]
pub enum Event {
    /// The code snippet returned this value.
    ScriptReturned(Value),
    /// The code snippet failed or ran out of time.
    ScriptFailed(ScriptError),
    /// The code snippet could not be handed to a worker.
    DispatchFailed(String),
    /// The URL template, with every variable filled in.
    UrlResolved(String),
    /// The URL template names a variable that has no value.
    UrlFailed(String),
    /// The remote-call executor gave this result.
    CallCompleted(CurlResult),
    /// The remote-call executor could not build the request.
    RequestRejected(String),
    /// The remote-call executor could not make the call.
    TransportFailed(String),
}

/// What an [`Event`] holds, as a mathematical value.
pub enum EventView {
    ScriptReturned(Value),
    ScriptFailed(ScriptErrorView),
    DispatchFailed(Seq<char>),
    UrlResolved(Seq<char>),
    UrlFailed(Seq<char>),
    CallCompleted(CurlResultView),
    RequestRejected(Seq<char>),
    TransportFailed(Seq<char>),
}

impl View for Event {
    type V = EventView;

    open spec fn view(&self) -> EventView {
        match self {
            Event::ScriptReturned(value) => EventView::ScriptReturned(*value),
            Event::ScriptFailed(error) => EventView::ScriptFailed(error@),
            Event::DispatchFailed(message) => EventView::DispatchFailed(message@),
            Event::UrlResolved(url) => EventView::UrlResolved(url@),
            Event::UrlFailed(message) => EventView::UrlFailed(message@),
            Event::CallCompleted(result) => EventView::CallCompleted(result@),
            Event::RequestRejected(message) => EventView::RequestRejected(message@),
            Event::TransportFailed(message) => EventView::TransportFailed(message@),
        }
    }
}

/// How far an execution has come.
#[derive(Debug, Clone)]
pub enum Stage {
    /// The headers code is to be run.
    Headers,
    /// The headers are there, the body code is to be run.
    Body { headers: Value },
    /// Headers and body are there, the URL template is to be filled in.
    Url { headers: Value, body: Value },
    /// The request is built, the remote call is to be made.
    Call { request: Request },
    /// The execution has its result.
    Done { result: CurlResult },
    /// The execution has failed.
    Failed { error: ExecError },
}

/// What a [`Stage`] holds, as a mathematical value.
pub enum StageView {
    Headers,
    Body { headers: Value },
    Url { headers: Value, body: Value },
    Call { request: RequestView },
    Done { result: CurlResultView },
    Failed { error: ExecErrorView },
}

impl View for Stage {
    type V = StageView;

    open spec fn view(&self) -> StageView {
        match self {
            Stage::Headers => StageView::Headers,
            Stage::Body { headers } => StageView::Body { headers: *headers },
            Stage::Url { headers, body } => StageView::Url { headers: *headers, body: *body },
            Stage::Call { request } => StageView::Call { request: request@ },
            Stage::Done { result } => StageView::Done { result: result@ },
            Stage::Failed { error } => StageView::Failed { error: error@ },
        }
    }
}

/// The work that an execution waits for, or its outcome once it has one.
#[derive(Debug, Clone, Copy)]
pub enum Action<'a> {
    /// Run `code` in the sandbox: call the function named `entry_point` with
    /// the environment as its one argument, off the scheduler's own threads,
    /// and stop it after `timeout_secs` seconds.
    RunScript { code: &'a str, entry_point: &'a str, timeout_secs: u64 },
    /// Fill in the variables of `template` from the environment.
    ResolveUrl { template: &'a str },
    /// Hand `request` to the remote-call executor; with `use_cache` it may
    /// serve a stored result, without it has to make the call.
    Call { request: &'a Request, use_cache: bool },
    /// The execution is over and this is its result.
    Return { result: &'a CurlResult },
    /// The execution is over and has failed.
    Fail { error: &'a ExecError },
}

/// What an [`Action`] holds, as a mathematical value.
pub enum ActionView {
    RunScript { code: Seq<char>, entry_point: Seq<char>, timeout_secs: u64 },
    ResolveUrl { template: Seq<char> },
    Call { request: RequestView, use_cache: bool },
    Return { result: CurlResultView },
    Fail { error: ExecErrorView },
}

impl<'a> View for Action<'a> {
    type V = ActionView;

    open spec fn view(&self) -> ActionView {
        match self {
            Action::RunScript { code, entry_point, timeout_secs } => ActionView::RunScript {
                code: code@,
                entry_point: entry_point@,
                timeout_secs: *timeout_secs,
            },
            Action::ResolveUrl { template } => ActionView::ResolveUrl { template: template@ },
            Action::Call { request, use_cache } => ActionView::Call {
                request: request@,
                use_cache: *use_cache,
            },
            Action::Return { result } => ActionView::Return { result: result@ },
            Action::Fail { error } => ActionView::Fail { error: error@ },
        }
    }
}

/// One execution of a block: the definition, the cache flag that was
/// resolved when the execution began, and how far it has come.
#[derive(Debug, Clone)]
pub struct Execution {
    block: Curl,
    use_cache: bool,
    stage: Stage,
}

/// What an [`Execution`] holds, as a mathematical value.
pub struct ExecutionView {
    pub block: CurlView,
    pub use_cache: bool,
    pub stage: StageView,
}

impl View for Execution {
    type V = ExecutionView;

    closed spec fn view(&self) -> ExecutionView {
        ExecutionView { block: self.block@, use_cache: self.use_cache, stage: self.stage@ }
    }
}

impl ExecutionView {
    /// The execution of `block` before anything has happened.
    pub open spec fn start(block: CurlView, use_cache: bool) -> ExecutionView {
        ExecutionView { block, use_cache, stage: StageView::Headers }
    }

    /// Whether the execution is over.
    pub open spec fn finished(self) -> bool {
        self.stage is Done || self.stage is Failed
    }

    /// The work that the execution waits for, or its outcome.
    pub open spec fn action(self) -> ActionView {
        match self.stage {
            StageView::Headers => ActionView::RunScript {
                code: self.block.headers_code,
                entry_point: entry_point(),
                timeout_secs: SCRIPT_TIMEOUT_SECS,
            },
            StageView::Body { headers } => ActionView::RunScript {
                code: self.block.body_code,
                entry_point: entry_point(),
                timeout_secs: SCRIPT_TIMEOUT_SECS,
            },
            StageView::Url { headers, body } => ActionView::ResolveUrl { template: self.block.url },
            StageView::Call { request } => ActionView::Call { request, use_cache: self.use_cache },
            StageView::Done { result } => ActionView::Return { result },
            StageView::Failed { error } => ActionView::Fail { error },
        }
    }

    /// The stage after `event`. An event that does not answer the action
    /// that the execution waits for changes nothing, and nothing changes an
    /// execution that is over.
    pub open spec fn next_stage(self, event: EventView) -> StageView {
        match (self.stage, event) {
            (StageView::Headers, EventView::ScriptReturned(value)) => StageView::Body {
                headers: value,
            },
            (StageView::Headers, EventView::ScriptFailed(error)) => StageView::Failed {
                error: ExecErrorView::HeadersCode(error),
            },
            (StageView::Headers, EventView::DispatchFailed(message)) => StageView::Failed {
                error: ExecErrorView::Dispatch(message),
            },
            (StageView::Body { headers }, EventView::ScriptReturned(value)) => StageView::Url {
                headers,
                body: value,
            },
            (StageView::Body { headers }, EventView::ScriptFailed(error)) => StageView::Failed {
                error: ExecErrorView::BodyCode(error),
            },
            (StageView::Body { headers }, EventView::DispatchFailed(message)) => StageView::Failed {
                error: ExecErrorView::Dispatch(message),
            },
            (StageView::Url { headers, body }, EventView::UrlResolved(url)) => StageView::Call {
                request: RequestView { method: self.block.method, url, headers, body },
            },
            (StageView::Url { headers, body }, EventView::UrlFailed(message)) => StageView::Failed {
                error: ExecErrorView::Template(message),
            },
            (StageView::Call { request }, EventView::CallCompleted(result)) => StageView::Done {
                result,
            },
            (StageView::Call { request }, EventView::RequestRejected(message)) => StageView::Failed {
                error: ExecErrorView::Request(message),
            },
            (StageView::Call { request }, EventView::TransportFailed(message)) => StageView::Failed {
                error: ExecErrorView::Transport(message),
            },
            (stage, _) => stage,
        }
    }

    /// The execution after `event`: the stage moves, the definition and the
    /// cache flag stay.
    pub open spec fn step(self, event: EventView) -> ExecutionView {
        ExecutionView { block: self.block, use_cache: self.use_cache, stage: self.next_stage(event) }
    }

    /// The execution after the events of `events`, in their order.
    pub open spec fn run(self, events: Seq<EventView>) -> ExecutionView
        decreases events.len(),
    {
        if events.len() == 0 {
            self
        } else {
            self.step(events.first()).run(events.drop_first())
        }
    }
}

impl Execution {
    /// Begins an execution of `block`. `config` is the configuration that
    /// the environment holds for the block's name, if it holds one; the
    /// cache flag is resolved from it here, once.
    pub fn start(block: Curl, config: Option<&Value>) -> (execution: Execution)
        ensures
            execution@ == ExecutionView::start(block@, use_cache_of(deref_option(config))),
    {
        let use_cache = resolve_use_cache(config);
        Execution { block, use_cache, stage: Stage::Headers }
    }

    /// The definition that is executed.
    pub fn block(&self) -> (block: &Curl)
        ensures
            block@ == self@.block,
    {
        &self.block
    }

    /// The cache flag of this execution.
    pub fn use_cache(&self) -> (flag: bool)
        ensures
            flag == self@.use_cache,
    {
        self.use_cache
    }

    /// How far the execution has come.
    pub fn stage(&self) -> (stage: &Stage)
        ensures
            stage@ == self@.stage,
    {
        &self.stage
    }

    /// Whether the execution is over.
    pub fn finished(&self) -> (over: bool)
        ensures
            over == self@.finished(),
    {
        match &self.stage {
            Stage::Done { .. } => true,
            Stage::Failed { .. } => true,
            _ => false,
        }
    }

    /// The work that the execution waits for, or its outcome once it is
    /// over.
    pub fn action(&self) -> (action: Action<'_>)
        ensures
            action@ == self@.action(),
    {
        match &self.stage {
            Stage::Headers => Action::RunScript {
                code: self.block.headers_code(),
                entry_point: "_fun",
                timeout_secs: SCRIPT_TIMEOUT_SECS,
            },
            Stage::Body { .. } => Action::RunScript {
                code: self.block.body_code(),
                entry_point: "_fun",
                timeout_secs: SCRIPT_TIMEOUT_SECS,
            },
            Stage::Url { .. } => Action::ResolveUrl { template: self.block.url() },
            Stage::Call { request } => Action::Call { request, use_cache: self.use_cache },
            Stage::Done { result } => Action::Return { result },
            Stage::Failed { error } => Action::Fail { error },
        }
    }

    /// Takes the outcome of the work that [`Execution::action`] asked for
    /// and moves the execution on.
    pub fn step(self, event: Event) -> (next: Execution)
        ensures
            next@ == self@.step(event@),
    {
        let Execution { block, use_cache, stage } = self;
        let stage = match (stage, event) {
            (Stage::Headers, Event::ScriptReturned(value)) => Stage::Body { headers: value },
            (Stage::Headers, Event::ScriptFailed(error)) => Stage::Failed {
                error: ExecError::HeadersCode(error),
            },
            (Stage::Headers, Event::DispatchFailed(message)) => Stage::Failed {
                error: ExecError::Dispatch(message),
            },
            (Stage::Body { headers }, Event::ScriptReturned(value)) => Stage::Url {
                headers,
                body: value,
            },
            (Stage::Body { .. }, Event::ScriptFailed(error)) => Stage::Failed {
                error: ExecError::BodyCode(error),
            },
            (Stage::Body { .. }, Event::DispatchFailed(message)) => Stage::Failed {
                error: ExecError::Dispatch(message),
            },
            (Stage::Url { headers, body }, Event::UrlResolved(url)) => Stage::Call {
                request: Request { method: block.method().to_owned(), url, headers, body },
            },
            (Stage::Url { .. }, Event::UrlFailed(message)) => Stage::Failed {
                error: ExecError::Template(message),
            },
            (Stage::Call { .. }, Event::CallCompleted(result)) => Stage::Done { result },
            (Stage::Call { .. }, Event::RequestRejected(message)) => Stage::Failed {
                error: ExecError::Request(message),
            },
            (Stage::Call { .. }, Event::TransportFailed(message)) => Stage::Failed {
                error: ExecError::Transport(message),
            },
            (stage, _) => stage,
        };
        Execution { block, use_cache, stage }
    }

    /// The outcome of an execution that is over, and `None` for one that
    /// still waits for an event.
    pub fn outcome(self) -> (outcome: Option<Result<CurlResult, ExecError>>)
        ensures
            match outcome {
                Some(Ok(result)) => self@.stage == (StageView::Done { result: result@ }),
                Some(Err(error)) => self@.stage == (StageView::Failed { error: error@ }),
                None => !self@.finished(),
            },
    {
        match self.stage {
            Stage::Done { result } => Some(Ok(result)),
            Stage::Failed { error } => Some(Err(error)),
            _ => None,
        }
    }
}

/// Nothing changes an execution that is over.
pub proof fn finished_is_final(execution: ExecutionView, events: Seq<EventView>)
    requires
        execution.finished(),
    ensures
        execution.run(events) == execution,
    decreases events.len(),
{
    if events.len() > 0 {
        assert(execution.step(events.first()) == execution);
        finished_is_final(execution, events.drop_first());
    }
}

/// The definition and the cache flag of an execution never change.
pub proof fn run_keeps_definition_and_flag(execution: ExecutionView, events: Seq<EventView>)
    ensures
        execution.run(events).block == execution.block,
        execution.run(events).use_cache == execution.use_cache,
    decreases events.len(),
{
    if events.len() > 0 {
        run_keeps_definition_and_flag(execution.step(events.first()), events.drop_first());
    }
}

/// Whether a request that waits for the remote call has the method of the
/// definition.
pub open spec fn request_matches_definition(execution: ExecutionView) -> bool {
    execution.stage matches StageView::Call { request } ==> request.method
        == execution.block.method
}

/// Events keep the request in line with the definition.
proof fn run_keeps_request_in_line(execution: ExecutionView, events: Seq<EventView>)
    requires
        request_matches_definition(execution),
    ensures
        request_matches_definition(execution.run(events)),
    decreases events.len(),
{
    if events.len() > 0 {
        run_keeps_request_in_line(execution.step(events.first()), events.drop_first());
    }
}

/// Whatever happens in an execution, a request that it hands to the
/// remote-call executor has the method of the definition.
pub proof fn request_carries_the_method(
    block: CurlView,
    use_cache: bool,
    events: Seq<EventView>,
)
    ensures
        ExecutionView::start(block, use_cache).run(events).action() matches ActionView::Call {
            request,
            use_cache: flag,
        } ==> request.method == block.method,
{
    run_keeps_request_in_line(ExecutionView::start(block, use_cache), events);
    run_keeps_definition_and_flag(ExecutionView::start(block, use_cache), events);
}

/// Whatever happens in an execution, the remote-call executor is handed the
/// cache flag that was resolved when the execution began: `true` where the
/// configuration holds no boolean under `use_cache`, and the boolean where
/// it holds one. Nothing else bears on the flag, and so not what the store
/// holds.
pub proof fn call_carries_resolved_flag(
    block: CurlView,
    config: Option<Value>,
    events: Seq<EventView>,
)
    ensures
        ExecutionView::start(block, use_cache_of(config)).run(events).action() matches ActionView::Call {
            request,
            use_cache,
        } ==> use_cache == use_cache_of(config),
{
    run_keeps_definition_and_flag(ExecutionView::start(block, use_cache_of(config)), events);
}

/// When the headers code fails or runs out of time, the execution fails
/// with that error as an error of the headers code, and no later event, an
/// outcome of the body code among them, changes this.
pub proof fn headers_failure_is_final(
    execution: ExecutionView,
    error: ScriptErrorView,
    events: Seq<EventView>,
)
    requires
        execution.stage is Headers,
    ensures
        execution.step(EventView::ScriptFailed(error)).run(events).stage == (StageView::Failed {
            error: ExecErrorView::HeadersCode(error),
        }),
        execution.step(EventView::ScriptFailed(error)).run(events).action() == (ActionView::Fail {
            error: ExecErrorView::HeadersCode(error),
        }),
{
    finished_is_final(execution.step(EventView::ScriptFailed(error)), events);
}

/// When the body code fails or runs out of time, the execution fails with
/// that error as an error of the body code.
pub proof fn body_failure_is_final(
    execution: ExecutionView,
    error: ScriptErrorView,
    events: Seq<EventView>,
)
    requires
        execution.stage is Body,
    ensures
        execution.step(EventView::ScriptFailed(error)).run(events).stage == (StageView::Failed {
            error: ExecErrorView::BodyCode(error),
        }),
{
    finished_is_final(execution.step(EventView::ScriptFailed(error)), events);
}

/// An execution in which nothing fails runs the headers code, then the body
/// code, then fills in the URL template, then hands the executor the
/// request made of the method, the resolved URL and the two values, and
/// returns the executor's result as it is.
pub proof fn undisturbed_execution(
    block: CurlView,
    use_cache: bool,
    headers: Value,
    body: Value,
    url: Seq<char>,
    result: CurlResultView,
)
    ensures
        ({
            let start = ExecutionView::start(block, use_cache);
            let with_headers = start.step(EventView::ScriptReturned(headers));
            let with_body = with_headers.step(EventView::ScriptReturned(body));
            let with_url = with_body.step(EventView::UrlResolved(url));
            let done = with_url.step(EventView::CallCompleted(result));
            &&& start.action() == (ActionView::RunScript {
                code: block.headers_code,
                entry_point: entry_point(),
                timeout_secs: SCRIPT_TIMEOUT_SECS,
            })
            &&& with_headers.action() == (ActionView::RunScript {
                code: block.body_code,
                entry_point: entry_point(),
                timeout_secs: SCRIPT_TIMEOUT_SECS,
            })
            &&& with_body.action() == (ActionView::ResolveUrl { template: block.url })
            &&& with_url.action() == (ActionView::Call {
                request: RequestView { method: block.method, url, headers, body },
                use_cache,
            })
            &&& done.action() == (ActionView::Return { result })
        }),
{
}

} // verus!
