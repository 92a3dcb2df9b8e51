use budgetgram::action::{CategoryField, CreateCategory, Direction, UpdateCategory};
use budgetgram::conversation::{ChatState, FlowEnd, StartOutcome, StateStore};

const CHAT: i64 = 42;

fn expense() -> CreateCategory {
    CreateCategory { direction: Direction::Expense }
}

#[test]
fn unknown_chat_is_idle() {
    let store = StateStore::new();
    assert_eq!(store.get(CHAT), ChatState::Idle);
}

#[test]
fn second_creation_request_conflicts() {
    let mut store = StateStore::new();
    assert_eq!(store.start_creation(CHAT, expense(), 10), StartOutcome::Started);
    let open = ChatState::AwaitingCreationInput { origin: expense(), origin_message_id: 10 };
    assert_eq!(store.get(CHAT), open);
    let income = CreateCategory { direction: Direction::Income };
    assert_eq!(store.start_creation(CHAT, income, 11), StartOutcome::Conflict);
    assert_eq!(store.get(CHAT), open);
}

#[test]
fn cancel_in_flow_clears_the_origin_keyboard() {
    let mut store = StateStore::new();
    store.set(CHAT, ChatState::AwaitingCreationInput { origin: expense(), origin_message_id: 77 });
    assert_eq!(
        store.end_creation(CHAT),
        Some(FlowEnd { origin: expense(), clear_keyboard_of: 77 })
    );
    assert_eq!(store.get(CHAT), ChatState::Idle);
    assert_eq!(store.end_creation(CHAT), None);
}

#[test]
fn chats_are_independent() {
    let mut store = StateStore::new();
    assert_eq!(store.start_creation(1, expense(), 5), StartOutcome::Started);
    assert_eq!(store.start_creation(2, expense(), 6), StartOutcome::Started);
    assert_eq!(store.end_creation(1).map(|e| e.clear_keyboard_of), Some(5));
    assert_eq!(store.get(1), ChatState::Idle);
    assert_eq!(
        store.get(2),
        ChatState::AwaitingCreationInput { origin: expense(), origin_message_id: 6 }
    );
}

#[test]
fn field_update_starts_unconditionally_and_cancels() {
    let mut store = StateStore::new();
    let edit = UpdateCategory { category_id: 3, field: CategoryField::Name };
    store.start_creation(CHAT, expense(), 1);
    store.start_field_update(CHAT, edit, 2);
    assert_eq!(
        store.get(CHAT),
        ChatState::AwaitingFieldUpdateInput { origin: edit, origin_message_id: 2 }
    );
    assert_eq!(store.start_creation(CHAT, expense(), 3), StartOutcome::Ignored);
    assert_eq!(store.end_creation(CHAT), None);
    assert_eq!(store.cancel_field_update(CHAT), Some((edit, 2)));
    assert_eq!(store.get(CHAT), ChatState::Idle);
    assert_eq!(store.cancel_field_update(CHAT), None);
}

#[test]
fn clear_makes_a_chat_idle() {
    let mut store = StateStore::new();
    store.start_creation(CHAT, expense(), 1);
    store.clear(CHAT);
    assert_eq!(store.get(CHAT), ChatState::Idle);
    assert_eq!(store.start_creation(CHAT, expense(), 2), StartOutcome::Started);
}
