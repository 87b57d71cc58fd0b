//! Relay of GitLab push events to Telegram chats.
//!
//! An inbound call names a webhook in its path and holds an event in its
//! body. The webhook is resolved to a chat, the event is composed into one
//! line of text, and the line is sent to the chat.
//!
//! - `event`: the event as GitLab posts it.
//! - `resolver`: from a webhook to its chat, over two lookups.
//! - `composer`: the line of text.
//! - `dispatch`: the handler, as a machine that decides and leaves lookups,
//!   delivery and response to whoever drives it.
//! - `world`: a model of the store and the transport, and what holds of
//!   every call that is served in it.
//! - `text`, `decimal`: the final segment of a ref, and the integer that a
//!   text writes.
//! - `health`: the answer of the health check.

pub mod composer;
pub mod decimal;
pub mod dispatch;
pub mod event;
pub mod health;
pub mod resolver;
pub mod text;
pub mod world;
