//! What holds of every call that the handler serves.
//!
//! The handler is driven from outside. Here the outside is a model: a store
//! as it stands while one call is served, and a transport that answers each
//! delivery with a report. A run feeds the handler the model's answers until
//! the call is answered. The theorems say what such a run asks for, and how
//! it ends.

use crate::composer::{notification, summary_line, ComposeError};
use crate::dispatch::{
    after_resolution, step_model, ActionView, DeliveryFault, DeliveryReport, Failure, Outcome,
    StateView, StimulusView,
};
use crate::event::GitlabEventView;
use crate::resolver::{ChatDestinationView, Registry, ResolveError};
use crate::text::final_segment;
use vstd::prelude::*;

verus! {

/// The world around one call: what the store holds, and what the transport
/// reports of the delivery of a text to a chat.
pub struct World {
    pub registry: Registry,
    pub transport: spec_fn(i64, Seq<char>) -> DeliveryReport,
}

impl World {
    /// What comes back when `action` is performed; nothing for an action
    /// that awaits no answer.
    pub open spec fn answer(self, action: ActionView) -> Option<StimulusView> {
        match action {
            ActionView::FindWebhook { webhook_url } => Some(
                StimulusView::WebhookLookup(self.registry.find_webhook_by_url(webhook_url)),
            ),
            ActionView::FindChat { chat_id } => Some(
                StimulusView::ChatLookup(self.registry.find_chat_by_id(chat_id)),
            ),
            ActionView::SendMessage { destination, text } => Some(
                StimulusView::Delivery((self.transport)(destination, text)),
            ),
            ActionView::Respond { .. } => None,
            ActionView::Nothing => None,
        }
    }
}

/// An inbound call, as far as it parsed: the webhook's token from its path
/// and the event from its body.
pub struct Call {
    pub webhook_url: Option<Seq<char>>,
    pub event: Option<GitlabEventView>,
}

impl Call {
    /// The call whose path gave `webhook_url` and whose body gave `event`.
    pub open spec fn parsed(webhook_url: Seq<char>, event: GitlabEventView) -> Call {
        Call { webhook_url: Some(webhook_url), event: Some(event) }
    }

    /// What the handler is told of the call.
    pub open spec fn request(self) -> StimulusView {
        StimulusView::Request { webhook_url: self.webhook_url, event: self.event }
    }
}

/// Bound on the decisions that are still ahead in `state`.
pub open spec fn decisions_ahead(state: StateView) -> nat {
    match state {
        StateView::Received => 4,
        StateView::Parsed { .. } => 3,
        StateView::Routed { .. } => 2,
        StateView::Composed => 1,
        StateView::Responded => 0,
        StateView::Failed(_) => 0,
    }
}

/// The actions that the handler asks for, in order, when it is in `state`,
/// receives `stimulus`, and each action is answered by `world`. The run ends
/// with the first action that awaits no answer.
pub open spec fn run(world: World, state: StateView, stimulus: StimulusView) -> Seq<ActionView>
    decreases decisions_ahead(state),
{
    let (next, action) = step_model(state, stimulus);
    match world.answer(action) {
        Some(reply) => if decisions_ahead(next) < decisions_ahead(state) {
            seq![action] + run(world, next, reply)
        } else {
            seq![action]
        },
        None => seq![action],
    }
}

/// All that the handler asks for while it serves `call`.
pub open spec fn handle(world: World, call: Call) -> Seq<ActionView> {
    run(world, StateView::Received, call.request())
}

/// The message of one action, where it is a delivery.
pub open spec fn delivery_of(action: ActionView) -> Seq<(i64, Seq<char>)> {
    match action {
        ActionView::SendMessage { destination, text } => seq![(destination, text)],
        _ => seq![],
    }
}

/// The messages that a run sends, in order, each with its chat.
pub open spec fn deliveries(actions: Seq<ActionView>) -> Seq<(i64, Seq<char>)>
    decreases actions.len(),
{
    if actions.len() == 0 {
        seq![]
    } else {
        deliveries(actions.drop_last()) + delivery_of(actions.last())
    }
}

/// The message that a call is to deliver, with its chat: that of an event
/// with a notification, pushed to a webhook that resolves to a chat whose
/// Telegram identifier is an integer. Any other call delivers nothing.
pub open spec fn due_delivery(world: World, call: Call) -> Option<(i64, Seq<char>)> {
    match (call.webhook_url, call.event) {
        (Some(url), Some(event)) => match (world.registry.resolve(url), notification(event)) {
            (Ok(chat), Some(text)) => match chat.telegram_chat() {
                Some(destination) => Some((destination, text)),
                None => None,
            },
            _ => None,
        },
        _ => None,
    }
}

/// How a call is to end. Each check is made only where those before it
/// passed: parsing, resolution, composition, the chat's identifier, the
/// delivery.
pub open spec fn due_outcome(world: World, call: Call) -> Outcome {
    match (call.webhook_url, call.event) {
        (Some(url), Some(event)) => match world.registry.resolve(url) {
            Err(error) => Outcome::Failed(Failure::NotFound(error)),
            Ok(chat) => match notification(event) {
                None => Outcome::Failed(Failure::UnprocessableEvent(ComposeError::NoCommits)),
                Some(text) => match chat.telegram_chat() {
                    None => Outcome::Failed(
                        Failure::DeliveryError(DeliveryFault::MalformedDestination),
                    ),
                    Some(destination) => match (world.transport)(destination, text) {
                        DeliveryReport::Sent => Outcome::Delivered,
                        DeliveryReport::Failed => Outcome::Failed(
                            Failure::DeliveryError(DeliveryFault::TransportFailed),
                        ),
                        DeliveryReport::TimedOut => Outcome::Failed(
                            Failure::DeliveryError(DeliveryFault::TimedOut),
                        ),
                    },
                },
            },
        },
        _ => Outcome::Failed(Failure::BadRequest),
    }
}

/// Every decision moves the handler on: whenever the action awaits an
/// answer, the decisions ahead become fewer, so that no run is cut short. A
/// response leaves the handler in a final state, and a final state is left
/// no more.
pub proof fn lemma_step_moves_on(world: World, state: StateView, stimulus: StimulusView)
    ensures
        world.answer(step_model(state, stimulus).1) is Some ==> decisions_ahead(
            step_model(state, stimulus).0,
        ) < decisions_ahead(state),
        step_model(state, stimulus).1 is Respond ==> step_model(state, stimulus).0.is_final(),
        state.is_final() ==> step_model(state, stimulus) == (state, ActionView::Nothing),
{
}

/// A call is answered once, at the end of its run, with the outcome that is
/// due. It sends the message that is due, once, and no message where none is
/// due. Where its path and body parsed, it starts by looking up the
/// registration of its webhook, whatever was looked up before.
pub proof fn lemma_call_is_served_as_due(world: World, call: Call)
    ensures
        1 <= handle(world, call).len() <= 4,
        handle(world, call).last() == (ActionView::Respond { outcome: due_outcome(world, call) }),
        forall|i: int|
            0 <= i < handle(world, call).len() - 1 ==> !(#[trigger] handle(world, call)[i]
                is Respond),
        deliveries(handle(world, call)) == match due_delivery(world, call) {
            Some(message) => seq![message],
            None => Seq::<(i64, Seq<char>)>::empty(),
        },
        call.webhook_url is Some && call.event is Some ==> handle(world, call)[0] == (
        ActionView::FindWebhook { webhook_url: call.webhook_url->0 }),
{
    let trace = handle(world, call);
    let (s1, a1) = step_model(StateView::Received, call.request());
    match (call.webhook_url, call.event) {
        (Some(url), Some(event)) => {
            let r1 = world.answer(a1)->0;
            let (s2, a2) = step_model(s1, r1);
            assert(trace == seq![a1] + run(world, s1, r1));
            match world.registry.resolve(url) {
                Err(ResolveError::WebhookNotFound) | Err(ResolveError::Unconfigured) => {
                    assert(run(world, s1, r1) == seq![a2]);
                    assert(trace =~= seq![a1, a2]);
                    lemma_deliveries_of_two(a1, a2);
                },
                Err(ResolveError::ChatNotFound) => {
                    let r2 = world.answer(a2)->0;
                    let (s3, a3) = step_model(s2, r2);
                    assert(run(world, s2, r2) == seq![a3]);
                    assert(run(world, s1, r1) == seq![a2] + run(world, s2, r2));
                    assert(trace =~= seq![a1, a2, a3]);
                    lemma_deliveries_of_three(a1, a2, a3);
                },
                Ok(chat) => {
                    let r2 = world.answer(a2)->0;
                    let (s3, a3) = step_model(s2, r2);
                    assert(run(world, s1, r1) == seq![a2] + run(world, s2, r2));
                    assert((s3, a3) == after_resolution(event, chat));
                    if a3 is SendMessage {
                        let r3 = world.answer(a3)->0;
                        let (s4, a4) = step_model(s3, r3);
                        assert(run(world, s3, r3) == seq![a4]);
                        assert(run(world, s2, r2) == seq![a3] + run(world, s3, r3));
                        assert(trace =~= seq![a1, a2, a3, a4]);
                        lemma_deliveries_of_four(a1, a2, a3, a4);
                    } else {
                        assert(run(world, s2, r2) == seq![a3]);
                        assert(trace =~= seq![a1, a2, a3]);
                        lemma_deliveries_of_three(a1, a2, a3);
                    }
                },
            }
        },
        _ => {
            assert(trace == seq![a1]);
            lemma_deliveries_of_one(a1);
        },
    }
}

/// A push with at least one commit, to a webhook that resolves to a chat,
/// is composed into these words: the project, the final segment of the ref,
/// and the message and the URL of the first commit. Where the chat's
/// Telegram identifier is an integer, the words are sent once, to that chat,
/// and the call ends as the transport reports. Where it is none, nothing is
/// sent and the call ends with a delivery error.
pub proof fn lemma_resolved_push_is_announced(
    world: World,
    webhook_url: Seq<char>,
    event: GitlabEventView,
)
    requires
        event.commits.len() >= 1,
        world.registry.resolve(webhook_url) is Ok,
    ensures
        ({
            let call = Call::parsed(webhook_url, event);
            let chat = world.registry.resolve(webhook_url)->Ok_0;
            let text = summary_line(
                event.project.name,
                final_segment(event.ref_name),
                event.commits[0].message,
                event.commits[0].url,
            );
            &&& notification(event) == Some(text)
            &&& match chat.telegram_chat() {
                Some(destination) => {
                    &&& deliveries(handle(world, call)) == seq![(destination, text)]
                    &&& handle(world, call).last() == (ActionView::Respond {
                        outcome: match (world.transport)(destination, text) {
                            DeliveryReport::Sent => Outcome::Delivered,
                            DeliveryReport::Failed => Outcome::Failed(
                                Failure::DeliveryError(DeliveryFault::TransportFailed),
                            ),
                            DeliveryReport::TimedOut => Outcome::Failed(
                                Failure::DeliveryError(DeliveryFault::TimedOut),
                            ),
                        },
                    })
                },
                None => {
                    &&& deliveries(handle(world, call)).len() == 0
                    &&& handle(world, call).last() == (ActionView::Respond {
                        outcome: Outcome::Failed(
                            Failure::DeliveryError(DeliveryFault::MalformedDestination),
                        ),
                    })
                },
            }
        }),
{
    lemma_call_is_served_as_due(world, Call::parsed(webhook_url, event));
}

/// A call to a webhook that is not registered ends as not found, and
/// nothing is sent.
pub proof fn lemma_unknown_webhook_is_not_found(
    world: World,
    webhook_url: Seq<char>,
    event: GitlabEventView,
)
    requires
        !world.registry.webhooks.dom().contains(webhook_url),
    ensures
        deliveries(handle(world, Call::parsed(webhook_url, event))).len() == 0,
        handle(world, Call::parsed(webhook_url, event)).last() == (ActionView::Respond {
            outcome: Outcome::Failed(Failure::NotFound(ResolveError::WebhookNotFound)),
        }),
{
    lemma_call_is_served_as_due(world, Call::parsed(webhook_url, event));
}

/// A call to a webhook that is registered without a chat ends as not found,
/// with a cause of its own, and nothing is sent.
pub proof fn lemma_unassigned_webhook_is_not_found(
    world: World,
    webhook_url: Seq<char>,
    event: GitlabEventView,
)
    requires
        world.registry.webhooks.dom().contains(webhook_url),
        world.registry.webhooks[webhook_url].chat_id is None,
    ensures
        deliveries(handle(world, Call::parsed(webhook_url, event))).len() == 0,
        handle(world, Call::parsed(webhook_url, event)).last() == (ActionView::Respond {
            outcome: Outcome::Failed(Failure::NotFound(ResolveError::Unconfigured)),
        }),
{
    lemma_call_is_served_as_due(world, Call::parsed(webhook_url, event));
}

/// A call to a webhook whose chat the store does not hold ends as not found,
/// and nothing is sent.
pub proof fn lemma_missing_chat_is_not_found(
    world: World,
    webhook_url: Seq<char>,
    event: GitlabEventView,
)
    requires
        world.registry.webhooks.dom().contains(webhook_url),
        world.registry.webhooks[webhook_url].chat_id is Some,
        !world.registry.chats.dom().contains(world.registry.webhooks[webhook_url].chat_id->0),
    ensures
        deliveries(handle(world, Call::parsed(webhook_url, event))).len() == 0,
        handle(world, Call::parsed(webhook_url, event)).last() == (ActionView::Respond {
            outcome: Outcome::Failed(Failure::NotFound(ResolveError::ChatNotFound)),
        }),
{
    lemma_call_is_served_as_due(world, Call::parsed(webhook_url, event));
}

/// Where the resolved chat's Telegram identifier is no integer, the
/// transport is not called. A push that has a notification then ends with a
/// delivery error; one without commits was turned down before the identifier
/// was read, as unprocessable.
pub proof fn lemma_malformed_destination_is_delivery_error(
    world: World,
    webhook_url: Seq<char>,
    event: GitlabEventView,
)
    requires
        world.registry.resolve(webhook_url) is Ok,
        world.registry.resolve(webhook_url)->Ok_0.telegram_chat() is None,
    ensures
        deliveries(handle(world, Call::parsed(webhook_url, event))).len() == 0,
        event.commits.len() >= 1 ==> handle(world, Call::parsed(webhook_url, event)).last() == (
        ActionView::Respond {
            outcome: Outcome::Failed(Failure::DeliveryError(DeliveryFault::MalformedDestination)),
        }),
        event.commits.len() == 0 ==> handle(world, Call::parsed(webhook_url, event)).last() == (
        ActionView::Respond {
            outcome: Outcome::Failed(Failure::UnprocessableEvent(ComposeError::NoCommits)),
        }),
{
    lemma_call_is_served_as_due(world, Call::parsed(webhook_url, event));
}

/// A push without commits sends nothing. Where its webhook resolves, it
/// ends as an unprocessable event, whatever the chat holds; where not, it
/// ended before the commits were asked for, as not found.
pub proof fn lemma_empty_push_is_unprocessable(
    world: World,
    webhook_url: Seq<char>,
    event: GitlabEventView,
)
    requires
        event.commits.len() == 0,
    ensures
        deliveries(handle(world, Call::parsed(webhook_url, event))).len() == 0,
        world.registry.resolve(webhook_url) is Ok ==> handle(
            world,
            Call::parsed(webhook_url, event),
        ).last() == (ActionView::Respond {
            outcome: Outcome::Failed(Failure::UnprocessableEvent(ComposeError::NoCommits)),
        }),
        world.registry.resolve(webhook_url) is Err ==> handle(
            world,
            Call::parsed(webhook_url, event),
        ).last() == (ActionView::Respond {
            outcome: Outcome::Failed(
                Failure::NotFound(world.registry.resolve(webhook_url)->Err_0),
            ),
        }),
{
    lemma_call_is_served_as_due(world, Call::parsed(webhook_url, event));
}

/// A call whose path or body did not parse ends as a bad request before
/// anything is looked up or sent.
pub proof fn lemma_unparsed_call_is_bad_request(world: World, call: Call)
    requires
        call.webhook_url is None || call.event is None,
    ensures
        handle(world, call) == seq![
            ActionView::Respond { outcome: Outcome::Failed(Failure::BadRequest) },
        ],
{
}

/// The handler remembers no call: the same call, served again in the same
/// world, asks for the same again. So a call that sends a message sends it
/// again: two deliveries of one event are two messages.
pub proof fn lemma_same_call_sends_again(world: World, call: Call)
    ensures
        deliveries(handle(world, call) + handle(world, call)) == deliveries(handle(world, call))
            + deliveries(handle(world, call)),
        due_delivery(world, call) is Some ==> deliveries(handle(world, call) + handle(world, call))
            == seq![due_delivery(world, call)->0, due_delivery(world, call)->0],
{
    lemma_call_is_served_as_due(world, call);
    lemma_deliveries_concat(handle(world, call), handle(world, call));
}

/// The deliveries of two runs, one behind the other, are those of the first
/// and then those of the second.
pub proof fn lemma_deliveries_concat(first: Seq<ActionView>, second: Seq<ActionView>)
    ensures
        deliveries(first + second) == deliveries(first) + deliveries(second),
    decreases second.len(),
{
    if second.len() == 0 {
        assert(first + second == first);
        assert(deliveries(first) + deliveries(second) == deliveries(first));
    } else {
        let shorter = second.drop_last();
        lemma_deliveries_concat(first, shorter);
        assert((first + second).drop_last() == first + shorter);
        assert((first + second).last() == second.last());
        assert((deliveries(first) + deliveries(shorter)) + delivery_of(second.last())
            == deliveries(first) + (deliveries(shorter) + delivery_of(second.last())));
    }
}

proof fn lemma_deliveries_of_one(a1: ActionView)
    ensures
        deliveries(seq![a1]) == delivery_of(a1),
{
    assert(seq![a1].drop_last() == Seq::<ActionView>::empty());
    assert(deliveries(Seq::<ActionView>::empty()) == Seq::<(i64, Seq<char>)>::empty());
    assert(Seq::<(i64, Seq<char>)>::empty() + delivery_of(a1) == delivery_of(a1));
}

proof fn lemma_deliveries_of_two(a1: ActionView, a2: ActionView)
    ensures
        deliveries(seq![a1, a2]) == delivery_of(a1) + delivery_of(a2),
{
    lemma_deliveries_of_one(a1);
    assert(seq![a1, a2].drop_last() == seq![a1]);
}

proof fn lemma_deliveries_of_three(a1: ActionView, a2: ActionView, a3: ActionView)
    ensures
        deliveries(seq![a1, a2, a3]) == delivery_of(a1) + delivery_of(a2) + delivery_of(a3),
{
    lemma_deliveries_of_two(a1, a2);
    assert(seq![a1, a2, a3].drop_last() == seq![a1, a2]);
}

proof fn lemma_deliveries_of_four(a1: ActionView, a2: ActionView, a3: ActionView, a4: ActionView)
    ensures
        deliveries(seq![a1, a2, a3, a4]) == delivery_of(a1) + delivery_of(a2) + delivery_of(a3)
            + delivery_of(a4),
{
    lemma_deliveries_of_three(a1, a2, a3);
    assert(seq![a1, a2, a3, a4].drop_last() == seq![a1, a2, a3]);
}

} // verus!
