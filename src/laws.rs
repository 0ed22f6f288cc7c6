//! Properties of the session protocol over whole inputs and runs.
use vstd::prelude::*;
use crate::codec::request_text;
use crate::datatype::{ApiResult, Error, ErrorCode, Event, EventResponse, ScriptRunContent};
use crate::session::{
    awaits_result, begin_init, well_formed, fail, frame_input, is_event_task, next, open_events, pop_task,
    push_task, subscribe_run_request, top, Action, Frame, Input, SessionState, Task,
};

verus! {

/// The number of event responses among the actions.
pub open spec fn responses(acts: Seq<Action>) -> nat
    decreases acts.len(),
{
    if acts.len() == 0 {
        0
    } else {
        responses(acts.drop_last()) + if acts.last() is Respond {
            1nat
        } else {
            0nat
        }
    }
}

proof fn lemma_responses_one(a: Action)
    ensures
        responses(seq![a]) == if a is Respond {
            1nat
        } else {
            0nat
        },
{
    assert(seq![a].drop_last() =~= Seq::<Action>::empty());
    assert(responses(Seq::<Action>::empty()) == 0);
    assert(seq![a].last() == a);
}

proof fn lemma_responses_two(a: Action, b: Action)
    ensures
        responses(seq![a, b]) == (if a is Respond {
            1nat
        } else {
            0nat
        }) + (if b is Respond {
            1nat
        } else {
            0nat
        }),
{
    assert(seq![a, b].drop_last() =~= seq![a]);
    assert(seq![a, b].last() == b);
    lemma_responses_one(a);
}

proof fn lemma_open_push(stack: Seq<Task>, t: Task)
    ensures
        open_events(stack.push(t)) == open_events(stack) + if is_event_task(t) {
            1nat
        } else {
            0nat
        },
{
    assert(stack.push(t).drop_last() =~= stack);
}

/// Every event is answered exactly once: an event opens one unanswered event,
/// each response closes one, and no input draws more than one response. A
/// response that does not answer the input's own event answers the innermost
/// unanswered one, the most recently arrived, so nested events are answered
/// before the event they interrupted.
pub proof fn lemma_one_response_per_event(s: SessionState, i: Input)
    requires
        !s.finished,
    ensures
        ({
            let (t, acts) = next(s, i);
            &&& responses(acts) + open_events(t.stack) == open_events(s.stack) + if i is Event {
                1nat
            } else {
                0nat
            }
            &&& responses(acts) <= 1
            &&& (i is Event && responses(acts) == 1) ==> t.stack == s.stack
            &&& (!(i is Event) && responses(acts) == 1) ==> {
                &&& s.stack.len() > 0
                &&& is_event_task(s.stack.last())
                &&& t.stack == s.stack.drop_last()
            }
        }),
{
    let (t, acts) = next(s, i);
    if s.stack.len() > 0 {
        assert(s.stack.drop_last().push(s.stack.last()) =~= s.stack);
        lemma_open_push(s.stack.drop_last(), s.stack.last());
    }
    lemma_open_push(s.stack, Task::InitSubscribing);
    lemma_open_push(s.stack, Task::InitCallback);
    lemma_open_push(s.stack, Task::ExecuteCallback);
    lemma_open_push(s.stack, Task::CallbackRequest);
    lemma_open_push(s.stack.drop_last(), Task::InitCallback);
    if acts.len() == 1 {
        assert(acts =~= seq![acts[0]]);
        lemma_responses_one(acts[0]);
    } else if acts.len() == 2 {
        assert(acts =~= seq![acts[0], acts[1]]);
        lemma_responses_two(acts[0], acts[1]);
    }
}

/// The state and all actions after a sequence of inputs, in order.
pub open spec fn run(s: SessionState, inputs: Seq<Input>) -> (SessionState, Seq<Action>)
    decreases inputs.len(),
{
    if inputs.len() == 0 {
        (s, seq![])
    } else {
        let (t, a) = run(s, inputs.drop_last());
        let (u, b) = next(t, inputs.last());
        (u, a + b)
    }
}

/// The number of events among the inputs.
pub open spec fn events(inputs: Seq<Input>) -> nat
    decreases inputs.len(),
{
    if inputs.len() == 0 {
        0
    } else {
        events(inputs.drop_last()) + if inputs.last() is Event {
            1nat
        } else {
            0nat
        }
    }
}

proof fn lemma_responses_concat(a: Seq<Action>, b: Seq<Action>)
    ensures
        responses(a + b) == responses(a) + responses(b),
    decreases b.len(),
{
    if b.len() == 0 {
        assert(a + b =~= a);
    } else {
        assert((a + b).drop_last() =~= a + b.drop_last());
        assert((a + b).last() == b.last());
        lemma_responses_concat(a, b.drop_last());
    }
}

/// Over any sequence of host frames and callback outcomes that leaves the
/// session live, every event has been answered exactly once or is still
/// being handled: the responses sent and the events still open add up to the
/// events that arrived.
pub proof fn lemma_run_answers_each_event(s: SessionState, inputs: Seq<Input>)
    requires
        !s.finished,
        s.stack.len() == 0,
    ensures
        !run(s, inputs).0.finished ==> responses(run(s, inputs).1) + open_events(
            run(s, inputs).0.stack,
        ) == events(inputs),
    decreases inputs.len(),
{
    if inputs.len() > 0 {
        let (t, a) = run(s, inputs.drop_last());
        let (u, b) = next(t, inputs.last());
        lemma_run_answers_each_event(s, inputs.drop_last());
        if !u.finished {
            if t.finished {
                lemma_finished_is_silent(t, inputs.last());
            }
            lemma_one_response_per_event(t, inputs.last());
            lemma_responses_concat(a, b);
        }
    } else {
        assert(open_events(s.stack) == 0);
    }
}

/// With an execute callback registered, a script-initialize event first sends
/// the subscription to script runs and answers nothing; until that request's
/// result arrives the event stays unanswered where it is (or the session
/// ends); the result then moves on to the init stage.
pub proof fn lemma_subscribe_before_init_response(
    s: SessionState,
    i: Input,
    v: serde_json::Value,
    c: ErrorCode,
)
    requires
        !s.finished,
        s.has_execute,
    ensures
        next(s, Input::Event(Event::ScriptInitialize {  })) == (
            push_task(s, Task::InitSubscribing),
            seq![Action::Send(subscribe_run_request())],
        ),
        request_text(subscribe_run_request())
            == "{\"api\":\"subscribe\",\"param\":{\"name\":\"scriptRun\",\"param\":{}}}"@,
        !(i is Result) ==> ({
            let (t, acts) = next(push_task(s, Task::InitSubscribing), i);
            t.finished || (t.stack.len() > s.stack.len() && t.stack[s.stack.len() as int]
                == Task::InitSubscribing)
        }),
        next(push_task(s, Task::InitSubscribing), Input::Result(ApiResult::Success(v)))
            == begin_init(s),
        next(push_task(s, Task::InitSubscribing), Input::Result(ApiResult::Failure(c))) == fail(
            push_task(s, Task::InitSubscribing),
            Error::ErrorCode(c),
        ),
{
    let p = push_task(s, Task::InitSubscribing);
    reveal_strlit("{\"api\":\"subscribe\",\"param\":");
    reveal_strlit("{\"name\":\"scriptRun\",\"param\":{}}");
    reveal_strlit("}");
    reveal_strlit("{\"api\":\"subscribe\",\"param\":{\"name\":\"scriptRun\",\"param\":{}}}");
    assert(request_text(subscribe_run_request())
        =~= "{\"api\":\"subscribe\",\"param\":{\"name\":\"scriptRun\",\"param\":{}}}"@);
    assert(p.stack.drop_last() =~= s.stack);
    assert(pop_task(p) == s);
}

/// The init callback is run at most once: only a session that still holds it
/// asks for it to run, and having given it up a session never holds it again.
pub proof fn lemma_init_runs_once(s: SessionState, i: Input)
    ensures
        (exists|k: int| 0 <= k < next(s, i).1.len() && #[trigger] next(s, i).1[k] is RunInit) ==> (
        s.init_pending && !next(s, i).0.init_pending),
        !s.init_pending ==> !next(s, i).0.init_pending,
{
}

/// Every input keeps a session well formed.
pub proof fn lemma_next_well_formed(s: SessionState, i: Input)
    requires
        well_formed(s),
    ensures
        well_formed(next(s, i).0),
{
    let t = next(s, i).0;
    assert forall|k: int| 0 <= k < t.stack.len() implies {
        &&& (#[trigger] t.stack[k] == Task::InitCallback ==> !t.init_pending)
        &&& ((t.stack[k] == Task::ExecuteCallback || t.stack[k] == Task::InitSubscribing)
            ==> t.has_execute)
    } by {
        if k + 1 < s.stack.len() {
            assert(t.stack[k] == s.stack[k]);
        }
    }
}

/// A session that is over sends nothing more, whatever comes in.
pub proof fn lemma_finished_is_silent(s: SessionState, i: Input)
    requires
        s.finished,
    ensures
        next(s, i) == (s, Seq::<Action>::empty()),
{
    assert(seq![] =~= Seq::<Action>::empty());
}

/// An init callback that fails draws a response with its code, then the
/// session ends with an initialization failure, the callback gone, and sends
/// no further frame.
pub proof fn lemma_init_failure_ends_session(s: SessionState, c: ErrorCode, i: Input)
    requires
        !s.finished,
        well_formed(s),
        top(s) == Some(Task::InitCallback),
    ensures
        ({
            let (t, acts) = next(s, Input::InitDone(Err(c)));
            &&& acts == seq![
                Action::Respond(EventResponse::Failure(c)),
                Action::Finish(Err(Error::InitializeFailed)),
            ]
            &&& t.finished
            &&& !t.init_pending
            &&& next(t, i) == (t, Seq::<Action>::empty())
        }),
{
    let (t, acts) = next(s, Input::InitDone(Err(c)));
    assert(s.stack[s.stack.len() - 1] == Task::InitCallback);
    lemma_finished_is_silent(t, i);
}

/// An execute callback that fails draws only a failure response for that
/// run; the session goes on, and the next script run calls the callback
/// again.
pub proof fn lemma_execute_failure_recovers(s: SessionState, c: ErrorCode, content: ScriptRunContent)
    requires
        !s.finished,
        s.has_execute,
        top(s) == Some(Task::ExecuteCallback),
    ensures
        ({
            let (t, acts) = next(s, Input::ExecuteDone(Err(c)));
            &&& acts == seq![Action::Respond(EventResponse::Failure(c))]
            &&& !t.finished
            &&& t == pop_task(s)
            &&& next(t, Input::Event(Event::ScriptRun { content })) == (
                push_task(t, Task::ExecuteCallback),
                seq![Action::RunExecute(content.argument)],
            )
        }),
{
}

/// An API result that no request awaits ends the session; it is never
/// dropped in silence.
pub proof fn lemma_unsolicited_result_fails(s: SessionState, r: ApiResult)
    requires
        !s.finished,
        !(top(s) matches Some(t) && awaits_result(t)),
    ensures
        next(s, Input::Result(r)) == fail(s, Error::UnexpectedApiResult),
        next(s, Input::Result(r)).0.finished,
{
}

/// A binary frame ends a live session with an invalid-message error, in
/// whatever state it comes.
pub proof fn lemma_binary_frame_fails(s: SessionState)
    requires
        !s.finished,
    ensures
        frame_input(Frame::Binary) == Some(Input::Invalid),
        next(s, Input::Invalid) == (
            SessionState { finished: true, ..s },
            seq![Action::Finish(Err(Error::InvalidServerMessage))],
        ),
{
}

} // verus!
