//! From a webhook to the chat that is notified.
//!
//! Resolution takes two lookups in a store that this library does not own:
//! the registration of the webhook, then the chat that the registration
//! names. The lookups are made elsewhere. Here stands what is decided on
//! their answers, and a model of the store against which the two decisions
//! together are stated.

use crate::decimal::{parse_i64, parse_i64_model};
use vstd::prelude::*;

verus! {

/// The registration of a webhook. It may name no chat.
#[derive(Debug, Clone, PartialEq, Eq)]
pub struct WebhookRegistration {
    /// The token in the path of the inbound call.
    pub webhook_url: String,
    /// The chat that is notified, where one was assigned.
    pub chat_id: Option<i32>,
}

/// A registration, its token as the sequence of its characters.
pub struct WebhookRegistrationView {
    pub webhook_url: Seq<char>,
    pub chat_id: Option<i32>,
}

impl View for WebhookRegistration {
    type V = WebhookRegistrationView;

    open spec fn view(&self) -> WebhookRegistrationView {
        WebhookRegistrationView { webhook_url: self.webhook_url@, chat_id: self.chat_id }
    }
}

/// A chat that can be notified.
#[derive(Debug, Clone, PartialEq, Eq)]
pub struct ChatDestination {
    /// The key under which the store holds the chat.
    pub chat_id: i32,
    /// Telegram's identifier of the chat, a signed decimal integer kept as
    /// text. Whether it is one is found out when a message is to be sent.
    pub telegram_id: String,
}

/// A chat, its Telegram identifier as the sequence of its characters.
pub struct ChatDestinationView {
    pub chat_id: i32,
    pub telegram_id: Seq<char>,
}

impl View for ChatDestination {
    type V = ChatDestinationView;

    open spec fn view(&self) -> ChatDestinationView {
        ChatDestinationView { chat_id: self.chat_id, telegram_id: self.telegram_id@ }
    }
}

impl ChatDestinationView {
    /// The number under which Telegram knows the chat, where the stored
    /// identifier is a decimal integer within the range of `i64`.
    pub open spec fn telegram_chat(self) -> Option<i64> {
        parse_i64_model(self.telegram_id)
    }
}

impl ChatDestination {
    /// The number under which Telegram knows the chat, where the stored
    /// identifier writes one.
    pub fn telegram_chat(&self) -> (chat: Option<i64>)
        ensures
            chat == self@.telegram_chat(),
    {
        parse_i64(self.telegram_id.as_str())
    }
}

/// Why a webhook did not resolve to a chat.
#[derive(Debug, Clone, Copy, PartialEq, Eq, Structural)]
pub enum ResolveError {
    /// No registration is stored for the webhook.
    WebhookNotFound,
    /// The webhook is registered, and no chat was assigned to it.
    Unconfigured,
    /// The registration names a chat that the store does not hold.
    ChatNotFound,
}

/// The view of what a lookup of a registration answered.
pub open spec fn found_registration(found: Option<WebhookRegistration>) -> Option<
    WebhookRegistrationView,
> {
    match found {
        Some(registration) => Some(registration@),
        None => None,
    }
}

/// The view of what a lookup of a chat answered.
pub open spec fn found_destination(found: Option<ChatDestination>) -> Option<ChatDestinationView> {
    match found {
        Some(chat) => Some(chat@),
        None => None,
    }
}

/// The chat to look up next, given what the lookup of the registration
/// answered.
pub open spec fn assigned_chat_model(found: Option<WebhookRegistrationView>) -> Result<
    i32,
    ResolveError,
> {
    match found {
        None => Err(ResolveError::WebhookNotFound),
        Some(registration) => match registration.chat_id {
            None => Err(ResolveError::Unconfigured),
            Some(chat_id) => Ok(chat_id),
        },
    }
}

/// The resolved chat, given what the lookup of the chat answered.
pub open spec fn resolved_chat_model(found: Option<ChatDestinationView>) -> Result<
    ChatDestinationView,
    ResolveError,
> {
    match found {
        None => Err(ResolveError::ChatNotFound),
        Some(chat) => Ok(chat),
    }
}

/// First step of resolution: the chat that the found registration names.
/// A registration that is missing, or that names no chat, ends resolution.
pub fn assigned_chat(found: &Option<WebhookRegistration>) -> (assigned: Result<i32, ResolveError>)
    ensures
        assigned == assigned_chat_model(found_registration(*found)),
{
    match found {
        None => Err(ResolveError::WebhookNotFound),
        Some(registration) => match registration.chat_id {
            None => Err(ResolveError::Unconfigured),
            Some(chat_id) => Ok(chat_id),
        },
    }
}

/// Second step of resolution: the chat that the lookup found. A chat that
/// is missing ends resolution.
pub fn resolved_chat(found: Option<ChatDestination>) -> (resolved: Result<
    ChatDestination,
    ResolveError,
>)
    ensures
        match found {
            Some(chat) => resolved == Ok::<ChatDestination, ResolveError>(chat),
            None => resolved == Err::<ChatDestination, ResolveError>(ResolveError::ChatNotFound),
        },
{
    match found {
        None => Err(ResolveError::ChatNotFound),
        Some(chat) => Ok(chat),
    }
}

/// What the store holds at one moment: the registrations by their token and
/// the chats by their key. The store itself lies outside this library and
/// may change between two requests.
pub struct Registry {
    pub webhooks: Map<Seq<char>, WebhookRegistrationView>,
    pub chats: Map<i32, ChatDestinationView>,
}

impl Registry {
    /// The registration stored for `webhook_url`, where there is one.
    pub open spec fn find_webhook_by_url(self, webhook_url: Seq<char>) -> Option<
        WebhookRegistrationView,
    > {
        if self.webhooks.dom().contains(webhook_url) {
            Some(self.webhooks[webhook_url])
        } else {
            None
        }
    }

    /// The chat stored under `chat_id`, where there is one.
    pub open spec fn find_chat_by_id(self, chat_id: i32) -> Option<ChatDestinationView> {
        if self.chats.dom().contains(chat_id) {
            Some(self.chats[chat_id])
        } else {
            None
        }
    }

    /// The chat that `webhook_url` resolves to: that which its registration
    /// names. The second lookup is made only where the first gave a chat to
    /// look for.
    pub open spec fn resolve(self, webhook_url: Seq<char>) -> Result<
        ChatDestinationView,
        ResolveError,
    > {
        match assigned_chat_model(self.find_webhook_by_url(webhook_url)) {
            Err(error) => Err(error),
            Ok(chat_id) => resolved_chat_model(self.find_chat_by_id(chat_id)),
        }
    }
}

/// Resolution succeeds on exactly the webhooks that are registered with a
/// chat that the store holds, and then gives that chat. Each way to fail has
/// its own error.
pub proof fn lemma_resolve_outcomes(registry: Registry, webhook_url: Seq<char>)
    ensures
        registry.resolve(webhook_url) is Ok <==> {
            &&& registry.webhooks.dom().contains(webhook_url)
            &&& registry.webhooks[webhook_url].chat_id is Some
            &&& registry.chats.dom().contains(registry.webhooks[webhook_url].chat_id->0)
        },
        registry.resolve(webhook_url) is Ok ==> registry.resolve(webhook_url)->Ok_0
            == registry.chats[registry.webhooks[webhook_url].chat_id->0],
        registry.resolve(webhook_url) == Err::<ChatDestinationView, ResolveError>(
            ResolveError::WebhookNotFound,
        ) <==> !registry.webhooks.dom().contains(webhook_url),
        registry.resolve(webhook_url) == Err::<ChatDestinationView, ResolveError>(
            ResolveError::Unconfigured,
        ) <==> registry.webhooks.dom().contains(webhook_url)
            && registry.webhooks[webhook_url].chat_id is None,
        registry.resolve(webhook_url) == Err::<ChatDestinationView, ResolveError>(
            ResolveError::ChatNotFound,
        ) <==> {
            &&& registry.webhooks.dom().contains(webhook_url)
            &&& registry.webhooks[webhook_url].chat_id is Some
            &&& !registry.chats.dom().contains(registry.webhooks[webhook_url].chat_id->0)
        },
{
}

} // verus!
