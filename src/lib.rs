//! Button-driven navigation core of a chat-based budgeting assistant.
//!
//! Every action a user can trigger from an inline button is an [`action::Action`].
//! Actions are packed into short text tokens (binary wire format, then a
//! transport-safe text alphabet), decoded again when the button is tapped, and
//! routed to exactly one handler. A per-chat conversation state remembers which
//! multi-step flow a later free-text reply belongs to.

pub mod wire;
pub mod action;
pub mod codec;
pub mod transport;
pub mod conversation;
pub mod models;
pub mod keyboard;
pub mod declension;
pub mod messages;
pub mod dispatch;
pub mod commands;
