//! The engine as a state machine.
//!
//! The engine handles one message at a time. It awaits a message; while a
//! request waits for its backend it is dispatching; while the response is
//! written it is responding; then it awaits the next message. A message
//! that gets no response leaves it awaiting. The engine itself reads,
//! sends and writes nothing: each step tells its caller what to do next,
//! and the caller reports what came of it as the next event.

use vstd::prelude::*;
use crate::api::{
    exchange_outcome, exchange_result, exchange_view, BackendReply, BackendReplyView, BackendRequest,
    BackendRequestView,
};
use crate::json::{Json, JsonValue};
use crate::protocol::{
    complete_call, completed, decision, handle_line, is_request, line_decision, message_id,
    Dispatch, DispatchView, RpcResponse, RpcResponseView,
};
use crate::registry::ToolRegistry;
use crate::tools::Tool;
use crate::wire::parsed_json;

verus! {

/// Where the engine stands.
#[derive(Debug, PartialEq, Eq)]
pub enum EngineState {
    /// Nothing is in progress; the next message can be taken.
    AwaitingMessage,
    /// The request with this identifier waits for its backend.
    Dispatching { id: Json },
    /// A response is being written.
    Responding,
}

/// What happened outside the engine.
#[derive(Debug, PartialEq, Eq)]
pub enum Event {
    /// A line of text arrived.
    Line(String),
    /// The exchange with the backend is over: it answered, or it could not
    /// be made to, and the message says why.
    BackendAnswered(Result<BackendReply, String>),
    /// The response is written.
    ResponseWritten,
}

/// What the caller of the engine is to do next.
#[derive(Debug, PartialEq, Eq)]
pub enum Action {
    /// Read the next message.
    Read,
    /// Send the request to its backend.
    Call(BackendRequest),
    /// Write the response, as one message.
    Write(RpcResponse),
}

/// The content of an [`EngineState`].
pub enum EngineStateView {
    AwaitingMessage,
    Dispatching { id: JsonValue },
    Responding,
}

/// The content of an [`Event`].
pub enum EventView {
    Line(Seq<char>),
    BackendAnswered(Result<BackendReplyView, Seq<char>>),
    ResponseWritten,
}

/// The content of an [`Action`].
pub enum ActionView {
    Read,
    Call(BackendRequestView),
    Write(RpcResponseView),
}

impl View for EngineState {
    type V = EngineStateView;

    open spec fn view(&self) -> EngineStateView {
        match self {
            EngineState::AwaitingMessage => EngineStateView::AwaitingMessage,
            EngineState::Dispatching { id } => EngineStateView::Dispatching { id: id@ },
            EngineState::Responding => EngineStateView::Responding,
        }
    }
}

impl View for Event {
    type V = EventView;

    open spec fn view(&self) -> EventView {
        match self {
            Event::Line(line) => EventView::Line(line@),
            Event::BackendAnswered(exchange) => EventView::BackendAnswered(exchange_view(*exchange)),
            Event::ResponseWritten => EventView::ResponseWritten,
        }
    }
}

impl View for Action {
    type V = ActionView;

    open spec fn view(&self) -> ActionView {
        match self {
            Action::Read => ActionView::Read,
            Action::Call(request) => ActionView::Call(request@),
            Action::Write(response) => ActionView::Write(response@),
        }
    }
}

/// The content of what a step gives.
pub open spec fn step_view(stepped: Option<(EngineState, Action)>) -> Option<
    (EngineStateView, ActionView),
> {
    match stepped {
        Some((state, action)) => Some((state@, action@)),
        None => None,
    }
}

/// The state after `event` in `state`, and what is to be done then; nothing
/// where the event cannot happen in the state.
///
/// A line is taken only while the engine awaits a message. An answer of the
/// backend is taken only while a request waits for it, and that a response
/// is written only while one is being written.
pub open spec fn next<T: Tool>(tools: Seq<T>, state: EngineStateView, event: EventView) -> Option<
    (EngineStateView, ActionView),
> {
    match (state, event) {
        (EngineStateView::AwaitingMessage, EventView::Line(line)) => Some(
            match line_decision(tools, line) {
                Some(DispatchView::Reply(response)) => (
                    EngineStateView::Responding,
                    ActionView::Write(response),
                ),
                Some(DispatchView::Backend { id, request }) => (
                    EngineStateView::Dispatching { id },
                    ActionView::Call(request),
                ),
                None => (EngineStateView::AwaitingMessage, ActionView::Read),
            },
        ),
        (EngineStateView::Dispatching { id }, EventView::BackendAnswered(exchange)) => Some(
            (EngineStateView::Responding, ActionView::Write(completed(id, exchange_result(exchange)))),
        ),
        (EngineStateView::Responding, EventView::ResponseWritten) => Some(
            (EngineStateView::AwaitingMessage, ActionView::Read),
        ),
        _ => None,
    }
}

/// Takes one step: from the state and what happened to the next state and
/// what is to be done. An event that cannot happen in the state gives
/// nothing.
pub fn step<T: Tool>(registry: &ToolRegistry<T>, state: EngineState, event: Event) -> (stepped:
    Option<(EngineState, Action)>)
    ensures
        step_view(stepped) == next(registry@, state@, event@),
{
    match (state, event) {
        (EngineState::AwaitingMessage, Event::Line(line)) => {
            match handle_line(registry, line.as_str()) {
                Some(Dispatch::Reply(response)) => Some(
                    (EngineState::Responding, Action::Write(response)),
                ),
                Some(Dispatch::Backend(call)) => Some(
                    (EngineState::Dispatching { id: call.id }, Action::Call(call.request)),
                ),
                None => Some((EngineState::AwaitingMessage, Action::Read)),
            }
        },
        (EngineState::Dispatching { id }, Event::BackendAnswered(exchange)) => Some(
            (EngineState::Responding, Action::Write(complete_call(id, exchange_outcome(exchange)))),
        ),
        (EngineState::Responding, Event::ResponseWritten) => Some(
            (EngineState::AwaitingMessage, Action::Read),
        ),
        _ => None,
    }
}

/// The response that is written for a message, where `outcome` is what the
/// backend answers if it is asked; nothing where no response is written.
pub open spec fn answer<T: Tool>(
    tools: Seq<T>,
    message: JsonValue,
    outcome: Result<JsonValue, Seq<char>>,
) -> Option<RpcResponseView> {
    match decision(tools, message) {
        Some(DispatchView::Reply(response)) => Some(response),
        Some(DispatchView::Backend { id, request }) => Some(completed(id, outcome)),
        None => None,
    }
}

/// The responses that are written for a run of messages, in the order in
/// which they are written; `outcomes` holds for each message what the
/// backend answers if it is asked.
pub open spec fn transcript<T: Tool>(
    tools: Seq<T>,
    messages: Seq<JsonValue>,
    outcomes: Seq<Result<JsonValue, Seq<char>>>,
) -> Seq<RpcResponseView>
    recommends
        messages.len() == outcomes.len(),
    decreases messages.len(),
{
    if messages.len() == 0 {
        Seq::empty()
    } else {
        let before = transcript(tools, messages.drop_last(), outcomes.drop_last());
        match answer(tools, messages.last(), outcomes.last()) {
            Some(response) => before.push(response),
            None => before,
        }
    }
}

/// The identifiers of the requests among a run of messages, in order.
pub open spec fn request_ids(messages: Seq<JsonValue>) -> Seq<JsonValue>
    decreases messages.len(),
{
    if messages.len() == 0 {
        Seq::empty()
    } else {
        let before = request_ids(messages.drop_last());
        if is_request(messages.last()) {
            before.push(message_id(messages.last())->0)
        } else {
            before
        }
    }
}

/// The identifiers of a list of responses, in order.
pub open spec fn response_ids(responses: Seq<RpcResponseView>) -> Seq<JsonValue> {
    Seq::new(responses.len(), |i: int| responses[i].id)
}

/// A message without an identifier leaves the engine awaiting: nothing is
/// written for it, whatever its method.
pub proof fn lemma_notification_is_not_answered<T: Tool>(
    tools: Seq<T>,
    line: Seq<char>,
    message: JsonValue,
)
    requires
        parsed_json(line) == Some(message),
        message_id(message) is None,
    ensures
        decision(tools, message) is None,
        next(tools, EngineStateView::AwaitingMessage, EventView::Line(line)) == Some(
            (EngineStateView::AwaitingMessage, ActionView::Read),
        ),
        forall|outcome: Result<JsonValue, Seq<char>>| answer(tools, message, outcome) is None,
{
}

/// A line that holds no JSON value leaves the engine awaiting: nothing is
/// written for it.
pub proof fn lemma_noise_is_not_answered<T: Tool>(tools: Seq<T>, line: Seq<char>)
    requires
        parsed_json(line) is None,
    ensures
        next(tools, EngineStateView::AwaitingMessage, EventView::Line(line)) == Some(
            (EngineStateView::AwaitingMessage, ActionView::Read),
        ),
{
}

/// While a request waits for its backend or its response is written, no
/// further line is taken: requests are handled one at a time.
pub proof fn lemma_one_request_at_a_time<T: Tool>(
    tools: Seq<T>,
    state: EngineStateView,
    line: Seq<char>,
)
    requires
        !(state is AwaitingMessage),
    ensures
        next(tools, state, EventView::Line(line)) is None,
{
}

/// The response to a request carries the identifier of the request
/// unchanged, whether it is written at once or after the backend was asked.
pub proof fn lemma_response_echoes_id<T: Tool>(
    tools: Seq<T>,
    message: JsonValue,
    outcome: Result<JsonValue, Seq<char>>,
)
    ensures
        answer(tools, message, outcome) matches Some(response) ==> message_id(message) == Some(
            response.id,
        ),
        answer(tools, message, outcome) is Some <==> is_request(message),
{
}

/// Two requests with different identifiers get responses with different
/// identifiers: each its own.
pub proof fn lemma_distinct_ids_stay_distinct<T: Tool>(
    tools: Seq<T>,
    first: JsonValue,
    second: JsonValue,
    first_outcome: Result<JsonValue, Seq<char>>,
    second_outcome: Result<JsonValue, Seq<char>>,
)
    requires
        answer(tools, first, first_outcome) is Some,
        answer(tools, second, second_outcome) is Some,
        message_id(first) != message_id(second),
    ensures
        answer(tools, first, first_outcome)->0.id == message_id(first)->0,
        answer(tools, second, second_outcome)->0.id == message_id(second)->0,
        answer(tools, first, first_outcome)->0.id != answer(tools, second, second_outcome)->0.id,
{
    lemma_response_echoes_id(tools, first, first_outcome);
    lemma_response_echoes_id(tools, second, second_outcome);
}

/// The responses to a run of messages carry the identifiers of its requests,
/// one response for each request and in the order of the requests.
pub proof fn lemma_responses_follow_requests<T: Tool>(
    tools: Seq<T>,
    messages: Seq<JsonValue>,
    outcomes: Seq<Result<JsonValue, Seq<char>>>,
)
    requires
        messages.len() == outcomes.len(),
    ensures
        response_ids(transcript(tools, messages, outcomes)) == request_ids(messages),
    decreases messages.len(),
{
    if messages.len() == 0 {
        assert(response_ids(transcript(tools, messages, outcomes)) =~= request_ids(messages));
    } else {
        lemma_responses_follow_requests(tools, messages.drop_last(), outcomes.drop_last());
        lemma_response_echoes_id(tools, messages.last(), outcomes.last());
        assert(response_ids(transcript(tools, messages, outcomes)) =~= request_ids(messages));
    }
}

} // verus!
