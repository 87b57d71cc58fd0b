//! The handler of an inbound call, as a machine.
//!
//! The handler reads nothing and sends nothing. It is told what came from
//! outside (the parsed request, the answer of a lookup, the report of a
//! delivery) and says what is to be done next: a lookup, the delivery of a
//! message, or the response that ends the call. Whoever drives it performs
//! the action and hands back what came of it.
//!
//! A call is received, parsed, resolved to its chat, composed into a
//! message, delivered and responded to, and may fail at each of these. The
//! states of the machine are the stations at which something outside is
//! awaited. Resolution awaits two lookups, so it has a station of its own
//! between them. Nothing is awaited once the chat is resolved, nor once the
//! message is delivered: the decision that finds the chat goes on to compose
//! the message, and the decision that learns of the delivery goes on to
//! respond.
//!
//! The machine keeps nothing between two calls, and two calls share nothing.

use crate::composer::{compose, notification, ComposeError};
use crate::event::{GitlabEvent, GitlabEventView};
use crate::resolver::{
    assigned_chat, assigned_chat_model, found_destination, found_registration, resolved_chat,
    resolved_chat_model, ChatDestination, ChatDestinationView, ResolveError, WebhookRegistration,
    WebhookRegistrationView,
};
use vstd::prelude::*;

verus! {

/// Why a message did not reach Telegram.
#[derive(Debug, Clone, Copy, PartialEq, Eq, Structural)]
pub enum DeliveryFault {
    /// The chat's Telegram identifier is no integer, so that there was
    /// nowhere to send to. The transport was not called.
    MalformedDestination,
    /// The transport reported an error.
    TransportFailed,
    /// The transport did not answer within the time allowed.
    TimedOut,
}

/// Why a call was not served. Each kind holds what the failing part said.
#[derive(Debug, Clone, Copy, PartialEq, Eq, Structural)]
pub enum Failure {
    /// The path or the body of the call did not parse.
    BadRequest,
    /// The webhook did not resolve to a chat. A webhook that is registered
    /// without a chat counts as not found, like one that is not registered;
    /// the error inside tells the two apart.
    NotFound(ResolveError),
    /// The event parsed and has no notification.
    UnprocessableEvent(ComposeError),
    /// The message did not reach Telegram.
    DeliveryError(DeliveryFault),
}

/// How a call ended.
#[derive(Debug, Clone, Copy, PartialEq, Eq, Structural)]
pub enum Outcome {
    /// The notification was delivered.
    Delivered,
    /// The call failed, and nothing was delivered.
    Failed(Failure),
}

/// The HTTP status that reports `outcome`: 200 for a delivery, and for each
/// kind of failure a status of its own, whatever its cause.
pub open spec fn status_of(outcome: Outcome) -> u16 {
    match outcome {
        Outcome::Delivered => 200,
        Outcome::Failed(Failure::BadRequest) => 400,
        Outcome::Failed(Failure::NotFound(_)) => 404,
        Outcome::Failed(Failure::UnprocessableEvent(_)) => 422,
        Outcome::Failed(Failure::DeliveryError(_)) => 502,
    }
}

impl Outcome {
    /// The HTTP status that reports the outcome. It lies in the 2xx range
    /// for a delivery, and for nothing else.
    pub fn status(&self) -> (status: u16)
        ensures
            status == status_of(*self),
            *self == Outcome::Delivered <==> 200 <= status < 300,
    {
        match self {
            Outcome::Delivered => 200,
            Outcome::Failed(Failure::BadRequest) => 400,
            Outcome::Failed(Failure::NotFound(_)) => 404,
            Outcome::Failed(Failure::UnprocessableEvent(_)) => 422,
            Outcome::Failed(Failure::DeliveryError(_)) => 502,
        }
    }
}

/// What the transport said of one delivery.
#[derive(Debug, Clone, Copy, PartialEq, Eq, Structural)]
pub enum DeliveryReport {
    /// The message was accepted.
    Sent,
    /// The transport reported an error.
    Failed,
    /// The transport did not answer within the time allowed.
    TimedOut,
}

/// Seconds that one delivery may take before it counts as timed out.
pub const DELIVERY_TIMEOUT_SECONDS: u64 = 10;

/// Where the handling of one call stands.
#[derive(Debug, Clone, PartialEq, Eq)]
pub enum State {
    /// The call came in; its path and body are being parsed.
    Received,
    /// Path and body parsed; the registration of the webhook is being
    /// looked up.
    Parsed { event: GitlabEvent },
    /// The registration names a chat, which is being looked up.
    Routed { event: GitlabEvent },
    /// The chat is resolved and the notification composed; its delivery is
    /// under way.
    Composed,
    /// The delivery succeeded and the call was answered.
    Responded,
    /// The call failed and was answered with the failure.
    Failed(Failure),
}

/// A state, with the event by its view.
pub enum StateView {
    Received,
    Parsed { event: GitlabEventView },
    Routed { event: GitlabEventView },
    Composed,
    Responded,
    Failed(Failure),
}

impl View for State {
    type V = StateView;

    open spec fn view(&self) -> StateView {
        match self {
            State::Received => StateView::Received,
            State::Parsed { event } => StateView::Parsed { event: event@ },
            State::Routed { event } => StateView::Routed { event: event@ },
            State::Composed => StateView::Composed,
            State::Responded => StateView::Responded,
            State::Failed(failure) => StateView::Failed(*failure),
        }
    }
}

impl StateView {
    /// Whether the call has been answered, so that nothing more will be
    /// asked for.
    pub open spec fn is_final(self) -> bool {
        self is Responded || self is Failed
    }

    /// Whether the call may still be given up, as when the caller has gone
    /// away: until a delivery was asked for. A message that is on its way is
    /// not called back, and its call is served to the end.
    pub open spec fn is_cancellable(self) -> bool {
        self is Received || self is Parsed || self is Routed
    }
}

impl State {
    /// Whether the call has been answered.
    pub fn is_final(&self) -> (ended: bool)
        ensures
            ended == self@.is_final(),
    {
        match self {
            State::Responded => true,
            State::Failed(_) => true,
            _ => false,
        }
    }

    /// Whether the call may still be given up: no delivery was asked for
    /// yet.
    pub fn is_cancellable(&self) -> (cancellable: bool)
        ensures
            cancellable == self@.is_cancellable(),
    {
        match self {
            State::Received => true,
            State::Parsed { .. } => true,
            State::Routed { .. } => true,
            _ => false,
        }
    }
}

/// What the outside world hands to the handler.
#[derive(Debug, Clone, PartialEq, Eq)]
pub enum Stimulus {
    /// The call, as far as it parsed: the webhook's token from the path and
    /// the event from the body, each absent where it did not parse.
    Request { webhook_url: Option<String>, event: Option<GitlabEvent> },
    /// What the lookup of the webhook's registration answered.
    WebhookLookup(Option<WebhookRegistration>),
    /// What the lookup of the chat answered.
    ChatLookup(Option<ChatDestination>),
    /// What the transport said of the delivery.
    Delivery(DeliveryReport),
}

/// A stimulus, with its texts and records by their views.
pub enum StimulusView {
    Request { webhook_url: Option<Seq<char>>, event: Option<GitlabEventView> },
    WebhookLookup(Option<WebhookRegistrationView>),
    ChatLookup(Option<ChatDestinationView>),
    Delivery(DeliveryReport),
}

impl View for Stimulus {
    type V = StimulusView;

    open spec fn view(&self) -> StimulusView {
        match self {
            Stimulus::Request { webhook_url, event } => StimulusView::Request {
                webhook_url: match webhook_url {
                    Some(url) => Some(url@),
                    None => None,
                },
                event: match event {
                    Some(e) => Some(e@),
                    None => None,
                },
            },
            Stimulus::WebhookLookup(found) => StimulusView::WebhookLookup(
                found_registration(*found),
            ),
            Stimulus::ChatLookup(found) => StimulusView::ChatLookup(found_destination(*found)),
            Stimulus::Delivery(report) => StimulusView::Delivery(*report),
        }
    }
}

/// What the handler asks for.
#[derive(Debug, Clone, PartialEq, Eq)]
pub enum Action {
    /// Look up the registration of this webhook.
    FindWebhook { webhook_url: String },
    /// Look up this chat.
    FindChat { chat_id: i32 },
    /// Send this text to this Telegram chat, once.
    SendMessage { destination: i64, text: String },
    /// Answer the call with this outcome. Nothing is asked for after it.
    Respond { outcome: Outcome },
    /// Nothing: the stimulus was not one that the state waits for.
    Nothing,
}

/// An action, with its texts by their views.
pub enum ActionView {
    FindWebhook { webhook_url: Seq<char> },
    FindChat { chat_id: i32 },
    SendMessage { destination: i64, text: Seq<char> },
    Respond { outcome: Outcome },
    Nothing,
}

impl View for Action {
    type V = ActionView;

    open spec fn view(&self) -> ActionView {
        match self {
            Action::FindWebhook { webhook_url } => ActionView::FindWebhook {
                webhook_url: webhook_url@,
            },
            Action::FindChat { chat_id } => ActionView::FindChat { chat_id: *chat_id },
            Action::SendMessage { destination, text } => ActionView::SendMessage {
                destination: *destination,
                text: text@,
            },
            Action::Respond { outcome } => ActionView::Respond { outcome: *outcome },
            Action::Nothing => ActionView::Nothing,
        }
    }
}

/// The end of a call that failed: the failure as the state, and the response
/// that reports it.
pub open spec fn failed(failure: Failure) -> (StateView, ActionView) {
    (StateView::Failed(failure), ActionView::Respond { outcome: Outcome::Failed(failure) })
}

/// What follows once the chat is resolved. The notification is composed
/// first, so an event without commits is unprocessable whatever the chat
/// holds. Then the chat's Telegram identifier is read, and a message goes out
/// only where it is an integer.
pub open spec fn after_resolution(event: GitlabEventView, chat: ChatDestinationView) -> (
    StateView,
    ActionView,
) {
    match notification(event) {
        None => failed(Failure::UnprocessableEvent(ComposeError::NoCommits)),
        Some(text) => match chat.telegram_chat() {
            None => failed(Failure::DeliveryError(DeliveryFault::MalformedDestination)),
            Some(destination) => (StateView::Composed, ActionView::SendMessage { destination, text }),
        },
    }
}

/// What follows the report of a delivery. The message is not sent again,
/// whatever the report.
pub open spec fn after_delivery(report: DeliveryReport) -> (StateView, ActionView) {
    match report {
        DeliveryReport::Sent => (
            StateView::Responded,
            ActionView::Respond { outcome: Outcome::Delivered },
        ),
        DeliveryReport::Failed => failed(Failure::DeliveryError(DeliveryFault::TransportFailed)),
        DeliveryReport::TimedOut => failed(Failure::DeliveryError(DeliveryFault::TimedOut)),
    }
}

/// The handler's decision: the state that follows `state` on `stimulus`, and
/// what is asked for.
///
/// - `Received`, on the request: with both parts parsed, the webhook's
///   registration is looked up; else the call is a bad request.
/// - `Parsed`, on the registration: where it names a chat, that chat is
///   looked up; where it is missing or names none, the call ends as not
///   found.
/// - `Routed`, on the chat: where it is missing, the call ends as not found;
///   else see `after_resolution`.
/// - `Composed`, on the report: see `after_delivery`.
/// - A stimulus that the state does not wait for changes nothing and asks
///   for nothing. So does every stimulus in a final state.
pub open spec fn step_model(state: StateView, stimulus: StimulusView) -> (StateView, ActionView) {
    match (state, stimulus) {
        (
            StateView::Received,
            StimulusView::Request { webhook_url: Some(url), event: Some(event) },
        ) => (StateView::Parsed { event }, ActionView::FindWebhook { webhook_url: url }),
        (StateView::Received, StimulusView::Request { .. }) => failed(Failure::BadRequest),
        (StateView::Parsed { event }, StimulusView::WebhookLookup(found)) => match assigned_chat_model(
            found,
        ) {
            Ok(chat_id) => (StateView::Routed { event }, ActionView::FindChat { chat_id }),
            Err(error) => failed(Failure::NotFound(error)),
        },
        (StateView::Routed { event }, StimulusView::ChatLookup(found)) => match resolved_chat_model(
            found,
        ) {
            Ok(chat) => after_resolution(event, chat),
            Err(error) => failed(Failure::NotFound(error)),
        },
        (StateView::Composed, StimulusView::Delivery(report)) => after_delivery(report),
        (unmoved, _) => (unmoved, ActionView::Nothing),
    }
}

/// Ends a call with `failure`.
fn fail(failure: Failure) -> (ended: (State, Action))
    ensures
        (ended.0@, ended.1@) == failed(failure),
{
    (State::Failed(failure), Action::Respond { outcome: Outcome::Failed(failure) })
}

/// Composes the notification for `event` and addresses it to `chat`.
fn notify(event: &GitlabEvent, chat: &ChatDestination) -> (next: (State, Action))
    ensures
        (next.0@, next.1@) == after_resolution(event@, chat@),
{
    match compose(event) {
        Err(error) => fail(Failure::UnprocessableEvent(error)),
        Ok(text) => match chat.telegram_chat() {
            None => fail(Failure::DeliveryError(DeliveryFault::MalformedDestination)),
            Some(destination) => (State::Composed, Action::SendMessage { destination, text }),
        },
    }
}

/// Ends a call on the report of its delivery.
fn conclude(report: DeliveryReport) -> (ended: (State, Action))
    ensures
        (ended.0@, ended.1@) == after_delivery(report),
{
    match report {
        DeliveryReport::Sent => (State::Responded, Action::Respond { outcome: Outcome::Delivered }),
        DeliveryReport::Failed => fail(Failure::DeliveryError(DeliveryFault::TransportFailed)),
        DeliveryReport::TimedOut => fail(Failure::DeliveryError(DeliveryFault::TimedOut)),
    }
}

/// Starts the handling of a call.
pub fn start() -> (state: State)
    ensures
        state@ == StateView::Received,
{
    State::Received
}

/// One decision of the handler: takes the state and what came from outside,
/// and gives the state that follows and what is to be done.
pub fn step(state: State, stimulus: Stimulus) -> (next: (State, Action))
    ensures
        (next.0@, next.1@) == step_model(state@, stimulus@),
{
    match state {
        State::Received => match stimulus {
            Stimulus::Request { webhook_url: Some(url), event: Some(event) } => (
                State::Parsed { event },
                Action::FindWebhook { webhook_url: url },
            ),
            Stimulus::Request { .. } => fail(Failure::BadRequest),
            _ => (State::Received, Action::Nothing),
        },
        State::Parsed { event } => match stimulus {
            Stimulus::WebhookLookup(found) => match assigned_chat(&found) {
                Ok(chat_id) => (State::Routed { event }, Action::FindChat { chat_id }),
                Err(error) => fail(Failure::NotFound(error)),
            },
            _ => (State::Parsed { event }, Action::Nothing),
        },
        State::Routed { event } => match stimulus {
            Stimulus::ChatLookup(found) => match resolved_chat(found) {
                Ok(chat) => notify(&event, &chat),
                Err(error) => fail(Failure::NotFound(error)),
            },
            _ => (State::Routed { event }, Action::Nothing),
        },
        State::Composed => match stimulus {
            Stimulus::Delivery(report) => conclude(report),
            _ => (State::Composed, Action::Nothing),
        },
        State::Responded => (State::Responded, Action::Nothing),
        State::Failed(failure) => (State::Failed(failure), Action::Nothing),
    }
}

} // verus!
