//! The session state machine: dispatches host events, correlates API results
//! with the request that awaits them, and decides when callbacks run.
//!
//! The driver hands each inbound frame and each callback outcome to
//! [`Session::step`] and performs the actions that come back, in order. Work
//! that is started and not yet finished sits on a stack, innermost last: an
//! event that arrives while a request awaits its result is handled on top of
//! it, so nested handling never leaves the one ordered channel.
use vstd::prelude::*;
use crate::datatype::{ApiRequest, ApiResult, Error, ErrorCode, Event, EventResponse, SubscribeParam};

verus! {

/// Work that the session has started and not yet finished.
#[derive(Clone, Copy, Debug, PartialEq, Eq, Structural)]
pub enum Task {
    /// A script-initialize event whose subscription request awaits its result.
    InitSubscribing,
    /// A script-initialize event whose init callback is running.
    InitCallback,
    /// A script-run event whose execute callback is running.
    ExecuteCallback,
    /// A request issued by the running callback, awaiting its result.
    CallbackRequest,
}

/// Whether the task is the handling of an event (which owes one response).
pub open spec fn is_event_task(t: Task) -> bool {
    !(t is CallbackRequest)
}

/// Whether the task waits for an API result.
pub open spec fn awaits_result(t: Task) -> bool {
    t is InitSubscribing || t is CallbackRequest
}

/// Whether a callback is running in the task.
pub open spec fn runs_callback(t: Task) -> bool {
    t is InitCallback || t is ExecuteCallback
}

/// The number of events on the stack that have not been answered yet.
pub open spec fn open_events(stack: Seq<Task>) -> nat
    decreases stack.len(),
{
    if stack.len() == 0 {
        0
    } else {
        open_events(stack.drop_last()) + if is_event_task(stack.last()) {
            1nat
        } else {
            0nat
        }
    }
}

/// What the driver hands to the session.
pub enum Input {
    /// A text frame that holds an event.
    Event(Event),
    /// A text frame that holds an API result.
    Result(ApiResult),
    /// A binary frame, or a text frame that is neither an event nor a result.
    Invalid,
    /// The channel closed, or the driver was interrupted.
    Closed,
    /// The init callback returned.
    InitDone(Result<(), ErrorCode>),
    /// The execute callback returned.
    ExecuteDone(Result<i32, ErrorCode>),
    /// The running callback issues a request.
    Request(ApiRequest),
}

/// What the driver is to do, in order.
pub enum Action {
    /// Send the request; the driver then reads frames until the session
    /// delivers its result.
    Send(ApiRequest),
    /// Send the response to the innermost unanswered event.
    Respond(EventResponse),
    /// Run the init callback and report its outcome.
    RunInit,
    /// Run the execute callback on these arguments and report its outcome.
    RunExecute(Vec<serde_json::Value>),
    /// Hand the result to the callback whose request awaited it.
    Deliver(Result<serde_json::Value, ErrorCode>),
    /// The session is over: cleanly, or with the error.
    Finish(Result<(), Error>),
}

/// An inbound frame as the transport delivers it. A text frame comes with
/// its readings as an event and as an API result, each present where the
/// text has that shape.
pub enum Frame {
    Text { event: Option<Event>, result: Option<ApiResult> },
    Binary,
    Close,
    /// A ping, pong or raw frame, which the transport absorbs.
    Control,
}

/// The input that a frame makes, if any: a text frame is an event where it
/// reads as one, else a result where it reads as one, else invalid.
pub open spec fn frame_input(f: Frame) -> Option<Input> {
    match f {
        Frame::Text { event, result } => match event {
            Some(e) => Some(Input::Event(e)),
            None => match result {
                Some(r) => Some(Input::Result(r)),
                None => Some(Input::Invalid),
            },
        },
        Frame::Binary => Some(Input::Invalid),
        Frame::Close => Some(Input::Closed),
        Frame::Control => None,
    }
}

/// Classifies an inbound frame.
pub fn classify(f: Frame) -> (r: Option<Input>)
    ensures
        r == frame_input(f),
{
    match f {
        Frame::Text { event, result } => match event {
            Some(e) => Some(Input::Event(e)),
            None => match result {
                Some(r) => Some(Input::Result(r)),
                None => Some(Input::Invalid),
            },
        },
        Frame::Binary => Some(Input::Invalid),
        Frame::Close => Some(Input::Closed),
        Frame::Control => None,
    }
}

/// Reads an inbound result's payload: an integer that is an error code makes
/// a failure, any other payload a success that carries it. `as_int` is the
/// payload read as an integer, where it is one.
pub fn api_result(payload: serde_json::Value, as_int: Option<i64>) -> (r: ApiResult)
    ensures
        r is Failure <==> (as_int matches Some(n) && -7 <= n <= -1),
        r matches ApiResult::Failure(c) ==> as_int == Some(c.spec_code() as i64),
        r matches ApiResult::Success(v) ==> v == payload,
{
    if let Some(n) = as_int {
        if i32::MIN as i64 <= n && n <= i32::MAX as i64 {
            if let Some(c) = ErrorCode::from_code(n as i32) {
                return ApiResult::Failure(c);
            }
        }
    }
    ApiResult::Success(payload)
}

/// The abstract state of a session.
pub ghost struct SessionState {
    /// The init callback is registered and has not been taken yet.
    pub init_pending: bool,
    /// An execute callback is registered.
    pub has_execute: bool,
    /// Started and unfinished work, innermost last.
    pub stack: Seq<Task>,
    /// The session is over; it sends nothing more.
    pub finished: bool,
}

/// What every state reached from [`Session::new`] satisfies: an init callback
/// that runs has been taken, and script-run work and the subscription exist
/// only where an execute callback is registered.
pub open spec fn well_formed(s: SessionState) -> bool {
    forall|k: int|
        0 <= k < s.stack.len() ==> {
            &&& (#[trigger] s.stack[k] == Task::InitCallback ==> !s.init_pending)
            &&& ((s.stack[k] == Task::ExecuteCallback || s.stack[k] == Task::InitSubscribing)
                ==> s.has_execute)
        }
}

/// The request that subscribes to script-run events.
pub open spec fn subscribe_run_request() -> ApiRequest {
    ApiRequest::Subscribe(SubscribeParam::ScriptRun {  })
}

/// The innermost task, if any.
pub open spec fn top(s: SessionState) -> Option<Task> {
    if s.stack.len() == 0 {
        None
    } else {
        Some(s.stack.last())
    }
}

pub open spec fn push_task(s: SessionState, t: Task) -> SessionState {
    SessionState { stack: s.stack.push(t), ..s }
}

pub open spec fn pop_task(s: SessionState) -> SessionState {
    SessionState { stack: s.stack.drop_last(), ..s }
}

/// The session fails with `e`; the stack is left as it was.
pub open spec fn fail(s: SessionState, e: Error) -> (SessionState, Seq<Action>) {
    (SessionState { finished: true, ..s }, seq![Action::Finish(Err(e))])
}

/// The init stage of a script-initialize event: the callback is taken and run
/// if it is still there, else the event is answered at once.
pub open spec fn begin_init(s: SessionState) -> (SessionState, Seq<Action>) {
    if s.init_pending {
        (
            SessionState { init_pending: false, ..push_task(s, Task::InitCallback) },
            seq![Action::RunInit],
        )
    } else {
        (s, seq![Action::Respond(EventResponse::Empty)])
    }
}

/// How the session takes up a new event, whatever it is doing. Interface-change,
/// block-update and alarm events have no handler; they are answered at once
/// with an empty success, so that every event draws exactly one response and
/// the host's one-event-at-a-time exchange stays in step.
pub open spec fn start_event(s: SessionState, e: Event) -> (SessionState, Seq<Action>) {
    match e {
        Event::ScriptInitialize {  } => if s.has_execute {
            (push_task(s, Task::InitSubscribing), seq![Action::Send(subscribe_run_request())])
        } else {
            begin_init(s)
        },
        Event::ScriptRun { content } => if s.has_execute {
            (push_task(s, Task::ExecuteCallback), seq![Action::RunExecute(content.argument)])
        } else {
            (s, seq![Action::Respond(EventResponse::ScriptRun { result: 0 })])
        },
        _ => (s, seq![Action::Respond(EventResponse::Empty)]),
    }
}

/// The next state and the actions, for one input.
pub open spec fn next(s: SessionState, i: Input) -> (SessionState, Seq<Action>) {
    if s.finished {
        (s, seq![])
    } else {
        match i {
            Input::Event(e) => start_event(s, e),
            Input::Result(r) => if top(s) == Some(Task::InitSubscribing) {
                match r {
                    ApiResult::Success(_) => begin_init(pop_task(s)),
                    ApiResult::Failure(c) => fail(s, Error::ErrorCode(c)),
                }
            } else if top(s) == Some(Task::CallbackRequest) {
                (pop_task(s), seq![Action::Deliver(r.spec_into_result())])
            } else {
                fail(s, Error::UnexpectedApiResult)
            },
            Input::Invalid => fail(s, Error::InvalidServerMessage),
            Input::Closed => if s.stack.len() == 0 {
                (SessionState { finished: true, ..s }, seq![Action::Finish(Ok(()))])
            } else {
                fail(s, Error::UnexpectedDisconnect)
            },
            Input::InitDone(r) => if top(s) == Some(Task::InitCallback) {
                match r {
                    Ok(()) => (pop_task(s), seq![Action::Respond(EventResponse::Empty)]),
                    Err(c) => (
                        SessionState { finished: true, ..pop_task(s) },
                        seq![
                            Action::Respond(EventResponse::Failure(c)),
                            Action::Finish(Err(Error::InitializeFailed)),
                        ],
                    ),
                }
            } else {
                (s, seq![])
            },
            Input::ExecuteDone(r) => if top(s) == Some(Task::ExecuteCallback) {
                match r {
                    Ok(n) => (pop_task(s), seq![Action::Respond(EventResponse::ScriptRun { result: n })]),
                    Err(c) => (pop_task(s), seq![Action::Respond(EventResponse::Failure(c))]),
                }
            } else {
                (s, seq![])
            },
            Input::Request(req) => if top(s) == Some(Task::InitCallback) || top(s) == Some(
                Task::ExecuteCallback,
            ) {
                (push_task(s, Task::CallbackRequest), seq![Action::Send(req)])
            } else {
                (s, seq![])
            },
        }
    }
}

/// A live connection's protocol state.
pub struct Session {
    init_pending: bool,
    has_execute: bool,
    stack: Vec<Task>,
    finished: bool,
}

impl View for Session {
    type V = SessionState;

    closed spec fn view(&self) -> SessionState {
        SessionState {
            init_pending: self.init_pending,
            has_execute: self.has_execute,
            stack: self.stack@,
            finished: self.finished,
        }
    }
}

fn one(a: Action) -> (r: Vec<Action>)
    ensures
        r@ == seq![a],
{
    let mut r = Vec::new();
    r.push(a);
    assert(r@ =~= seq![a]);
    r
}

impl Session {
    /// A session that has not seen any frame, with the callbacks that are
    /// registered.
    pub fn new(has_init: bool, has_execute: bool) -> (r: Session)
        ensures
            r@ == (SessionState {
                init_pending: has_init,
                has_execute,
                stack: seq![],
                finished: false,
            }),
            well_formed(r@),
    {
        let r = Session { init_pending: has_init, has_execute, stack: Vec::new(), finished: false };
        assert(r@.stack =~= seq![]);
        r
    }

    pub fn is_finished(&self) -> (r: bool)
        ensures
            r == self@.finished,
    {
        self.finished
    }

    fn top_task(&self) -> (r: Option<Task>)
        ensures
            r == top(self@),
    {
        if self.stack.len() == 0 {
            None
        } else {
            Some(self.stack[self.stack.len() - 1])
        }
    }

    fn pop(&mut self)
        requires
            old(self)@.stack.len() > 0,
        ensures
            final(self)@ == pop_task(old(self)@),
    {
        let _ = self.stack.pop();
        assert(self@.stack =~= old(self)@.stack.drop_last());
    }

    fn fail(&mut self, e: Error) -> (acts: Vec<Action>)
        ensures
            (final(self)@, acts@) == fail(old(self)@, e),
    {
        self.finished = true;
        one(Action::Finish(Err(e)))
    }

    fn begin_init(&mut self) -> (acts: Vec<Action>)
        ensures
            (final(self)@, acts@) == begin_init(old(self)@),
    {
        if self.init_pending {
            self.init_pending = false;
            self.stack.push(Task::InitCallback);
            one(Action::RunInit)
        } else {
            one(Action::Respond(EventResponse::Empty))
        }
    }

    fn start_event(&mut self, e: Event) -> (acts: Vec<Action>)
        ensures
            (final(self)@, acts@) == start_event(old(self)@, e),
    {
        match e {
            Event::ScriptInitialize {  } => {
                if self.has_execute {
                    self.stack.push(Task::InitSubscribing);
                    one(Action::Send(ApiRequest::Subscribe(SubscribeParam::ScriptRun {  })))
                } else {
                    self.begin_init()
                }
            },
            Event::ScriptRun { content } => {
                if self.has_execute {
                    self.stack.push(Task::ExecuteCallback);
                    one(Action::RunExecute(content.argument))
                } else {
                    one(Action::Respond(EventResponse::ScriptRun { result: 0 }))
                }
            },
            _ => one(Action::Respond(EventResponse::Empty)),
        }
    }

    /// Takes one input and returns what the driver is to do, in order.
    pub fn step(&mut self, input: Input) -> (acts: Vec<Action>)
        ensures
            (final(self)@, acts@) == next(old(self)@, input),
    {
        if self.finished {
            return Vec::new();
        }
        let t = self.top_task();
        match input {
            Input::Event(e) => self.start_event(e),
            Input::Result(r) => {
                if t == Some(Task::InitSubscribing) {
                    match r {
                        ApiResult::Success(_) => {
                            self.pop();
                            self.begin_init()
                        },
                        ApiResult::Failure(c) => self.fail(Error::ErrorCode(c)),
                    }
                } else if t == Some(Task::CallbackRequest) {
                    self.pop();
                    one(Action::Deliver(r.into_result()))
                } else {
                    self.fail(Error::UnexpectedApiResult)
                }
            },
            Input::Invalid => self.fail(Error::InvalidServerMessage),
            Input::Closed => {
                if self.stack.len() == 0 {
                    self.finished = true;
                    one(Action::Finish(Ok(())))
                } else {
                    self.fail(Error::UnexpectedDisconnect)
                }
            },
            Input::InitDone(r) => {
                if t == Some(Task::InitCallback) {
                    self.pop();
                    match r {
                        Ok(()) => one(Action::Respond(EventResponse::Empty)),
                        Err(c) => {
                            self.finished = true;
                            let mut acts = one(Action::Respond(EventResponse::Failure(c)));
                            acts.push(Action::Finish(Err(Error::InitializeFailed)));
                            assert(acts@ =~= seq![
                                Action::Respond(EventResponse::Failure(c)),
                                Action::Finish(Err(Error::InitializeFailed)),
                            ]);
                            acts
                        },
                    }
                } else {
                    Vec::new()
                }
            },
            Input::ExecuteDone(r) => {
                if t == Some(Task::ExecuteCallback) {
                    self.pop();
                    match r {
                        Ok(n) => one(Action::Respond(EventResponse::ScriptRun { result: n })),
                        Err(c) => one(Action::Respond(EventResponse::Failure(c))),
                    }
                } else {
                    Vec::new()
                }
            },
            Input::Request(req) => {
                if t == Some(Task::InitCallback) || t == Some(Task::ExecuteCallback) {
                    self.stack.push(Task::CallbackRequest);
                    one(Action::Send(req))
                } else {
                    Vec::new()
                }
            },
        }
    }
}

} // verus!
