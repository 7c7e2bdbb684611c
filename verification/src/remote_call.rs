//! The cached remote-call executor, as a state machine: whether the store
//! is asked, whether the call is made, and whether its result is stored.
//!
//! A result is stored under the request that it answers. With the cache in
//! use the store is asked first, and a stored result is served without a
//! call. Without it the store is not asked. Either way a result that comes
//! from a call is handed out together with the order to store it, so the
//! store stays warm also when it is not read.

use crate::execute::{CurlResult, CurlResultView, Request, RequestView};
use vstd::prelude::*;

verus! {

/// How far a remote call has come.
#[derive(Debug, Clone)]
pub enum CallStage {
    /// The store is to be asked for a result of the request.
    Lookup,
    /// The call is to be made.
    Fetch,
    /// The store had a result: the call is not made.
    Served { result: CurlResult },
    /// The call was made and gave this result.
    Fetched { result: CurlResult },
    /// The store could not be asked or the call could not be made.
    Failed { message: String },
}

/// What a [`CallStage`] holds, as a mathematical value.
pub enum CallStageView {
    Lookup,
    Fetch,
    Served { result: CurlResultView },
    Fetched { result: CurlResultView },
    Failed { message: Seq<char> },
}

impl View for CallStage {
    type V = CallStageView;

    open spec fn view(&self) -> CallStageView {
        match self {
            CallStage::Lookup => CallStageView::Lookup,
            CallStage::Fetch => CallStageView::Fetch,
            CallStage::Served { result } => CallStageView::Served { result: result@ },
            CallStage::Fetched { result } => CallStageView::Fetched { result: result@ },
            CallStage::Failed { message } => CallStageView::Failed { message: message@ },
        }
    }
}

/// The outcome of the work that a [`CallAction`] asked for.
#[derive(Debug, Clone)]
pub enum CallEvent {
    /// The store holds this result for the request.
    Found(CurlResult),
    /// The store holds no result for the request.
    NotFound,
    /// The call was made and gave this result.
    Responded(CurlResult),
    /// The store could not be asked or the call could not be made.
    Failed(String),
}

/// What a [`CallEvent`] holds, as a mathematical value.
pub enum CallEventView {
    Found(CurlResultView),
    NotFound,
    Responded(CurlResultView),
    Failed(Seq<char>),
}

impl View for CallEvent {
    type V = CallEventView;

    open spec fn view(&self) -> CallEventView {
        match self {
            CallEvent::Found(result) => CallEventView::Found(result@),
            CallEvent::NotFound => CallEventView::NotFound,
            CallEvent::Responded(result) => CallEventView::Responded(result@),
            CallEvent::Failed(message) => CallEventView::Failed(message@),
        }
    }
}

/// The work that a remote call waits for, or its outcome once it has one.
#[derive(Debug, Clone, Copy)]
pub enum CallAction<'a> {
    /// Ask the store for a result of `request`.
    Lookup { request: &'a Request },
    /// Make the call that `request` describes.
    Perform { request: &'a Request },
    /// The call is over and this is its result; with `store` the result is
    /// to be written to the store under `request` first.
    Return { request: &'a Request, result: &'a CurlResult, store: bool },
    /// The call is over and has failed.
    Fail { message: &'a str },
}

/// What a [`CallAction`] holds, as a mathematical value.
pub enum CallActionView {
    Lookup { request: RequestView },
    Perform { request: RequestView },
    Return { request: RequestView, result: CurlResultView, store: bool },
    Fail { message: Seq<char> },
}

impl<'a> View for CallAction<'a> {
    type V = CallActionView;

    open spec fn view(&self) -> CallActionView {
        match self {
            CallAction::Lookup { request } => CallActionView::Lookup { request: request@ },
            CallAction::Perform { request } => CallActionView::Perform { request: request@ },
            CallAction::Return { request, result, store } => CallActionView::Return {
                request: request@,
                result: result@,
                store: *store,
            },
            CallAction::Fail { message } => CallActionView::Fail { message: message@ },
        }
    }
}

/// One remote call through the cache.
#[derive(Debug, Clone)]
pub struct CachedCall {
    request: Request,
    stage: CallStage,
}

/// What a [`CachedCall`] holds, as a mathematical value.
pub struct CachedCallView {
    pub request: RequestView,
    pub stage: CallStageView,
}

impl View for CachedCall {
    type V = CachedCallView;

    closed spec fn view(&self) -> CachedCallView {
        CachedCallView { request: self.request@, stage: self.stage@ }
    }
}

impl CachedCallView {
    /// The call for `request` before anything has happened: with the cache
    /// in use the store is asked first, without it the call is made at once.
    pub open spec fn start(request: RequestView, use_cache: bool) -> CachedCallView {
        CachedCallView {
            request,
            stage: if use_cache {
                CallStageView::Lookup
            } else {
                CallStageView::Fetch
            },
        }
    }

    /// Whether the call is over.
    pub open spec fn finished(self) -> bool {
        self.stage is Served || self.stage is Fetched || self.stage is Failed
    }

    /// The work that the call waits for, or its outcome.
    pub open spec fn action(self) -> CallActionView {
        match self.stage {
            CallStageView::Lookup => CallActionView::Lookup { request: self.request },
            CallStageView::Fetch => CallActionView::Perform { request: self.request },
            CallStageView::Served { result } => CallActionView::Return {
                request: self.request,
                result,
                store: false,
            },
            CallStageView::Fetched { result } => CallActionView::Return {
                request: self.request,
                result,
                store: true,
            },
            CallStageView::Failed { message } => CallActionView::Fail { message },
        }
    }

    /// The call after `event`. An event that does not answer the action that
    /// the call waits for changes nothing, and nothing changes a call that
    /// is over.
    pub open spec fn step(self, event: CallEventView) -> CachedCallView {
        CachedCallView {
            request: self.request,
            stage: match (self.stage, event) {
                (CallStageView::Lookup, CallEventView::Found(result)) => CallStageView::Served {
                    result,
                },
                (CallStageView::Lookup, CallEventView::NotFound) => CallStageView::Fetch,
                (CallStageView::Lookup, CallEventView::Failed(message)) => CallStageView::Failed {
                    message,
                },
                (CallStageView::Fetch, CallEventView::Responded(result)) => CallStageView::Fetched {
                    result,
                },
                (CallStageView::Fetch, CallEventView::Failed(message)) => CallStageView::Failed {
                    message,
                },
                (stage, _) => stage,
            },
        }
    }

    /// The call after the events of `events`, in their order.
    pub open spec fn run(self, events: Seq<CallEventView>) -> CachedCallView
        decreases events.len(),
    {
        if events.len() == 0 {
            self
        } else {
            self.step(events.first()).run(events.drop_first())
        }
    }
}

impl CachedCall {
    /// Begins the call for `request`.
    pub fn start(request: Request, use_cache: bool) -> (call: CachedCall)
        ensures
            call@ == CachedCallView::start(request@, use_cache),
    {
        if use_cache {
            CachedCall { request, stage: CallStage::Lookup }
        } else {
            CachedCall { request, stage: CallStage::Fetch }
        }
    }

    /// The request that the call is for.
    pub fn request(&self) -> (request: &Request)
        ensures
            request@ == self@.request,
    {
        &self.request
    }

    /// Whether the call is over.
    pub fn finished(&self) -> (over: bool)
        ensures
            over == self@.finished(),
    {
        match &self.stage {
            CallStage::Lookup => false,
            CallStage::Fetch => false,
            _ => true,
        }
    }

    /// The work that the call waits for, or its outcome once it is over.
    pub fn action(&self) -> (action: CallAction<'_>)
        ensures
            action@ == self@.action(),
    {
        match &self.stage {
            CallStage::Lookup => CallAction::Lookup { request: &self.request },
            CallStage::Fetch => CallAction::Perform { request: &self.request },
            CallStage::Served { result } => CallAction::Return {
                request: &self.request,
                result,
                store: false,
            },
            CallStage::Fetched { result } => CallAction::Return {
                request: &self.request,
                result,
                store: true,
            },
            CallStage::Failed { message } => CallAction::Fail { message: message.as_str() },
        }
    }

    /// Takes the outcome of the work that [`CachedCall::action`] asked for
    /// and moves the call on.
    pub fn step(self, event: CallEvent) -> (next: CachedCall)
        ensures
            next@ == self@.step(event@),
    {
        let CachedCall { request, stage } = self;
        let stage = match (stage, event) {
            (CallStage::Lookup, CallEvent::Found(result)) => CallStage::Served { result },
            (CallStage::Lookup, CallEvent::NotFound) => CallStage::Fetch,
            (CallStage::Lookup, CallEvent::Failed(message)) => CallStage::Failed { message },
            (CallStage::Fetch, CallEvent::Responded(result)) => CallStage::Fetched { result },
            (CallStage::Fetch, CallEvent::Failed(message)) => CallStage::Failed { message },
            (stage, _) => stage,
        };
        CachedCall { request, stage }
    }

    /// The outcome of a call that is over, and `None` for one that still
    /// waits for an event.
    pub fn outcome(self) -> (outcome: Option<Result<CurlResult, String>>)
        ensures
            match outcome {
                Some(Ok(result)) => self@.stage == (CallStageView::Served { result: result@ })
                    || self@.stage == (CallStageView::Fetched { result: result@ }),
                Some(Err(message)) => self@.stage == (CallStageView::Failed { message: message@ }),
                None => !self@.finished(),
            },
    {
        match self.stage {
            CallStage::Served { result } => Some(Ok(result)),
            CallStage::Fetched { result } => Some(Ok(result)),
            CallStage::Failed { message } => Some(Err(message)),
            _ => None,
        }
    }
}

/// Nothing changes a call that is over.
pub proof fn finished_call_is_final(call: CachedCallView, events: Seq<CallEventView>)
    requires
        call.finished(),
    ensures
        call.run(events) == call,
    decreases events.len(),
{
    if events.len() > 0 {
        assert(call.step(events.first()) == call);
        finished_call_is_final(call, events.drop_first());
    }
}

/// A call that has left the store behind without a stored result never
/// asks it again and never serves one.
proof fn no_lookup_after_fetch(call: CachedCallView, events: Seq<CallEventView>)
    requires
        !(call.stage is Lookup),
        !(call.stage is Served),
    ensures
        !(call.run(events).stage is Lookup),
        !(call.run(events).stage is Served),
    decreases events.len(),
{
    if events.len() > 0 {
        no_lookup_after_fetch(call.step(events.first()), events.drop_first());
    }
}

/// Without the cache the store is never asked and no stored result is
/// served, whatever the store holds: the first action is the call itself,
/// and a result can only come from it.
pub proof fn bypass_never_reads(request: RequestView, events: Seq<CallEventView>)
    ensures
        CachedCallView::start(request, false).action() == (CallActionView::Perform { request }),
        !(CachedCallView::start(request, false).run(events).action() is Lookup),
        !(CachedCallView::start(request, false).run(events).stage is Served),
{
    no_lookup_after_fetch(CachedCallView::start(request, false), events);
}

/// With the cache the store is asked first. A result that it holds is
/// served as it is, is not stored again, and no later event brings a call
/// about.
pub proof fn hit_makes_no_call(
    request: RequestView,
    stored: CurlResultView,
    events: Seq<CallEventView>,
)
    ensures
        CachedCallView::start(request, true).action() == (CallActionView::Lookup { request }),
        CachedCallView::start(request, true).step(CallEventView::Found(stored)).run(
            events,
        ).action() == (CallActionView::Return { request, result: stored, store: false }),
{
    finished_call_is_final(
        CachedCallView::start(request, true).step(CallEventView::Found(stored)),
        events,
    );
}

/// A result that comes from a call is handed out with the order to store
/// it under the request, with the cache in use and without.
pub proof fn fresh_result_is_stored(request: RequestView, use_cache: bool, result: CurlResultView)
    ensures
        ({
            let start = CachedCallView::start(request, use_cache);
            let fetching = if use_cache {
                start.step(CallEventView::NotFound)
            } else {
                start
            };
            &&& fetching.action() == (CallActionView::Perform { request })
            &&& fetching.step(CallEventView::Responded(result)).action() == (CallActionView::Return {
                request,
                result,
                store: true,
            })
        }),
{
}

} // verus!
