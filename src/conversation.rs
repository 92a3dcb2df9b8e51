//! Per-chat conversation state: which multi-step flow, if any, a chat's next text
//! message belongs to.
use crate::action::{CreateCategory, UpdateCategory};
use std::collections::HashMap;
use vstd::prelude::*;

verus! {

broadcast use vstd::std_specs::hash::group_hash_axioms;

/// The flow a chat is in.
#[derive(Clone, Copy, Debug, PartialEq, Eq, Structural)]
#[allow(inconsistent_fields)]
pub enum ChatState {
    Idle,
    /// A category is being created; the next text message describes it.
    AwaitingCreationInput { origin: CreateCategory, origin_message_id: i32 },
    /// A field of a category is being edited.
    AwaitingFieldUpdateInput { origin: UpdateCategory, origin_message_id: i32 },
}

/// How a request to start a creation flow was taken.
#[derive(Clone, Copy, Debug, PartialEq, Eq, Structural)]
pub enum StartOutcome {
    /// The chat was idle and now awaits the category's description.
    Started,
    /// A creation flow is already open; nothing changed.
    Conflict,
    /// The chat is in a flow from which creation cannot start; nothing changed.
    Ignored,
}

/// A creation flow that was closed, and the message whose keyboard must be cleared.
#[derive(Clone, Copy, Debug, PartialEq, Eq, Structural)]
pub struct FlowEnd {
    pub origin: CreateCategory,
    pub clear_keyboard_of: i32,
}

/// Starting a creation flow from state `s`.
pub open spec fn creation_step(s: ChatState, origin: CreateCategory, message_id: i32) -> (
    ChatState,
    StartOutcome,
) {
    match s {
        ChatState::Idle => (
            ChatState::AwaitingCreationInput { origin, origin_message_id: message_id },
            StartOutcome::Started,
        ),
        ChatState::AwaitingCreationInput { .. } => (s, StartOutcome::Conflict),
        ChatState::AwaitingFieldUpdateInput { .. } => (s, StartOutcome::Ignored),
    }
}

/// Cancelling or completing a creation flow from state `s`.
pub open spec fn end_creation_step(s: ChatState) -> (ChatState, Option<FlowEnd>) {
    match s {
        ChatState::AwaitingCreationInput { origin, origin_message_id } => (
            ChatState::Idle,
            Some(FlowEnd { origin, clear_keyboard_of: origin_message_id }),
        ),
        _ => (s, None),
    }
}

/// Cancelling a field update from state `s`: the flow's origin and message, if one was open.
pub open spec fn end_field_update_step(s: ChatState) -> (ChatState, Option<(UpdateCategory, i32)>) {
    match s {
        ChatState::AwaitingFieldUpdateInput { origin, origin_message_id } => (
            ChatState::Idle,
            Some((origin, origin_message_id)),
        ),
        _ => (s, None),
    }
}

/// The state of `chat` in the map model: a chat never seen is idle.
pub open spec fn state_in(m: Map<i64, ChatState>, chat: i64) -> ChatState {
    if m.contains_key(chat) {
        m[chat]
    } else {
        ChatState::Idle
    }
}

/// The conversation state of every chat.
pub struct StateStore {
    chats: HashMap<i64, ChatState>,
}

impl View for StateStore {
    type V = Map<i64, ChatState>;

    closed spec fn view(&self) -> Map<i64, ChatState> {
        self.chats@
    }
}

impl StateStore {
    pub fn new() -> (r: StateStore)
        ensures
            r@ == Map::<i64, ChatState>::empty(),
    {
        StateStore { chats: HashMap::new() }
    }

    pub fn get(&self, chat_id: i64) -> (r: ChatState)
        ensures
            r == state_in(self@, chat_id),
    {
        match self.chats.get(&chat_id) {
            Some(s) => *s,
            None => ChatState::Idle,
        }
    }

    pub fn set(&mut self, chat_id: i64, state: ChatState)
        ensures
            final(self)@ == old(self)@.insert(chat_id, state),
    {
        self.chats.insert(chat_id, state);
    }

    /// Forgets the chat's state, which makes it idle.
    pub fn clear(&mut self, chat_id: i64)
        ensures
            final(self)@ == old(self)@.remove(chat_id),
            state_in(final(self)@, chat_id) == ChatState::Idle,
    {
        self.chats.remove(&chat_id);
    }

    /// Opens a creation flow for `chat_id` if it is idle.
    pub fn start_creation(&mut self, chat_id: i64, origin: CreateCategory, message_id: i32) -> (r:
        StartOutcome)
        ensures
            r == creation_step(state_in(old(self)@, chat_id), origin, message_id).1,
            final(self)@ == if r == StartOutcome::Started {
                old(self)@.insert(chat_id, creation_step(state_in(old(self)@, chat_id), origin, message_id).0)
            } else {
                old(self)@
            },
    {
        match self.get(chat_id) {
            ChatState::Idle => {
                self.set(
                    chat_id,
                    ChatState::AwaitingCreationInput { origin, origin_message_id: message_id },
                );
                StartOutcome::Started
            },
            ChatState::AwaitingCreationInput { .. } => StartOutcome::Conflict,
            ChatState::AwaitingFieldUpdateInput { .. } => StartOutcome::Ignored,
        }
    }

    /// Opens a field-update flow for `chat_id`, whatever flow was open.
    pub fn start_field_update(&mut self, chat_id: i64, origin: UpdateCategory, message_id: i32)
        ensures
            final(self)@ == old(self)@.insert(
                chat_id,
                ChatState::AwaitingFieldUpdateInput { origin, origin_message_id: message_id },
            ),
    {
        self.set(
            chat_id,
            ChatState::AwaitingFieldUpdateInput { origin, origin_message_id: message_id },
        );
    }

    /// Closes the creation flow of `chat_id`, cancelled or completed; a chat in no such
    /// flow is left as it is.
    pub fn end_creation(&mut self, chat_id: i64) -> (r: Option<FlowEnd>)
        ensures
            r == end_creation_step(state_in(old(self)@, chat_id)).1,
            final(self)@ == if r is Some {
                old(self)@.remove(chat_id)
            } else {
                old(self)@
            },
            state_in(final(self)@, chat_id) == end_creation_step(state_in(old(self)@, chat_id)).0,
    {
        match self.get(chat_id) {
            ChatState::AwaitingCreationInput { origin, origin_message_id } => {
                self.clear(chat_id);
                Some(FlowEnd { origin, clear_keyboard_of: origin_message_id })
            },
            _ => None,
        }
    }

    /// Closes the field-update flow of `chat_id`; a chat in no such flow is left as it is.
    pub fn cancel_field_update(&mut self, chat_id: i64) -> (r: Option<(UpdateCategory, i32)>)
        ensures
            r == end_field_update_step(state_in(old(self)@, chat_id)).1,
            final(self)@ == if r is Some {
                old(self)@.remove(chat_id)
            } else {
                old(self)@
            },
            state_in(final(self)@, chat_id) == end_field_update_step(
                state_in(old(self)@, chat_id),
            ).0,
    {
        match self.get(chat_id) {
            ChatState::AwaitingFieldUpdateInput { origin, origin_message_id } => {
                self.clear(chat_id);
                Some((origin, origin_message_id))
            },
            _ => None,
        }
    }
}

/// From idle, a creation request opens the flow; a second one before the flow ends is a
/// conflict that leaves the open flow exactly as it was.
pub proof fn lemma_second_creation_conflicts(
    first: CreateCategory,
    first_message: i32,
    second: CreateCategory,
    second_message: i32,
)
    ensures
        creation_step(ChatState::Idle, first, first_message) == (
            ChatState::AwaitingCreationInput { origin: first, origin_message_id: first_message },
            StartOutcome::Started,
        ),
        creation_step(
            creation_step(ChatState::Idle, first, first_message).0,
            second,
            second_message,
        ) == (
            ChatState::AwaitingCreationInput { origin: first, origin_message_id: first_message },
            StartOutcome::Conflict,
        ),
{
}

/// Ending a creation flow opened with message `m` makes the chat idle and clears the
/// keyboard of `m`.
pub proof fn lemma_cancel_clears_origin_keyboard(origin: CreateCategory, m: i32)
    ensures
        end_creation_step(
            ChatState::AwaitingCreationInput { origin, origin_message_id: m },
        ) == (ChatState::Idle, Some(FlowEnd { origin, clear_keyboard_of: m })),
{
}

} // verus!
