use budgetgram::action::{CategoryField, Direction};
use budgetgram::declension::{Declinable, GrammaticalNumber, Labeled, NameCase};
use budgetgram::models::{
    apply_category_update, apply_transaction_update, new_category, new_transaction, Category,
    CreateCategoryRequest, CreateTransactionRequest, CurrencyCode, UpdateCategoryRequest,
    UpdateTransactionRequest, UNSAVED_ID,
};

#[test]
fn currency_codes_and_symbols() {
    for (c, code, symbol) in [
        (CurrencyCode::USD, "USD", "$"),
        (CurrencyCode::EUR, "EUR", "€"),
        (CurrencyCode::JPY, "JPY", "¥"),
        (CurrencyCode::RUB, "RUB", "₽"),
    ] {
        assert_eq!(c.as_code_str(), code);
        assert_eq!(c.as_symbol_str(), symbol);
        assert_eq!(CurrencyCode::from_code_str(code), Some(c));
    }
    assert_eq!(CurrencyCode::from_code_str("usd"), None);
    assert_eq!(CurrencyCode::from_code_str(""), None);
}

#[test]
fn declension_table() {
    assert_eq!(Direction::Expense.decline(NameCase::Genitive, GrammaticalNumber::Plural), "расходов");
    assert_eq!(Direction::Expense.decline(NameCase::Creative, GrammaticalNumber::Singular), "расходом");
    assert_eq!(Direction::Income.decline(NameCase::Prepositional, GrammaticalNumber::Plural), "доходах");
    assert_eq!(Direction::Income.decline(NameCase::Nominative, GrammaticalNumber::Singular), "доход");
    assert_eq!(Direction::Expense.label(), "📉");
    assert_eq!(Direction::Income.label(), "📈");
    assert_eq!(NameCase::Prepositional.as_index(), 5);
    assert_eq!(GrammaticalNumber::Plural.as_index(), 1);
}

#[test]
fn direction_and_field_numbers() {
    assert_eq!(Direction::from_number(Direction::Income.number()), Direction::Income);
    assert_eq!(Direction::from_number(7), Direction::Unspecified);
    assert_eq!(Direction::Expense.opposite(), Direction::Income);
    assert_eq!(Direction::Unspecified.opposite(), Direction::Unspecified);
    assert_eq!(CategoryField::TargetAmount.number(), 5);
    assert_eq!(Direction::from_stored(1), Direction::Expense);
    assert_eq!(Direction::from_stored(2), Direction::Income);
    assert_eq!(Direction::from_stored(-2), Direction::Unspecified);
    assert_eq!(CategoryField::from_number(2), CategoryField::Label);
}

fn stored() -> Category {
    Category {
        id: 4,
        chat_id: 1,
        name: "Еда".to_string(),
        label: "🍎".to_string(),
        direction: Direction::Expense,
        is_regular: true,
        target_amount: None,
        created_at: 100,
        updated_at: 200,
        deleted_at: None,
    }
}

#[test]
fn new_category_is_unsaved() {
    let c = new_category(CreateCategoryRequest {
        chat_id: 1,
        name: "Зарплата".to_string(),
        label: "💼".to_string(),
        direction: Direction::Income,
        is_regular: true,
        target_amount: Some(50_000_000),
    });
    assert_eq!(c.id, UNSAVED_ID);
    assert_eq!(c.name, "Зарплата");
    assert_eq!(c.direction, Direction::Income);
    assert_eq!(c.target_amount, Some(50_000_000));
}

#[test]
fn category_update_changes_only_given_fields() {
    let c = apply_category_update(
        stored(),
        UpdateCategoryRequest {
            id: 4,
            chat_id: 1,
            name: Some("Продукты".to_string()),
            label: None,
            direction: None,
            is_regular: Some(false),
            target_amount: Some(300),
        },
    );
    assert_eq!(c.name, "Продукты");
    assert_eq!(c.label, "🍎");
    assert_eq!(c.direction, Direction::Expense);
    assert!(!c.is_regular);
    assert_eq!(c.target_amount, Some(300));
    assert_eq!(c.created_at, 100);
}

#[test]
fn transaction_update_marks_new_amount() {
    let t = new_transaction(CreateTransactionRequest {
        chat_id: 1,
        category_id: None,
        amount: 20000,
        description: "шоколад".to_string(),
        currency_code: CurrencyCode::RUB,
    });
    assert_eq!(t.id, UNSAVED_ID);
    assert!(!t.amount_modified);
    let same_amount = apply_transaction_update(
        t.clone(),
        UpdateTransactionRequest {
            id: -1,
            chat_id: 1,
            category_id: Some(4),
            amount: None,
            description: None,
            currency_code: None,
        },
        1_700_000_000,
    );
    assert_eq!(same_amount.category_id, Some(4));
    assert!(!same_amount.amount_modified);
    assert_eq!(same_amount.updated_at, 1_700_000_000);
    let changed = apply_transaction_update(
        t,
        UpdateTransactionRequest {
            id: -1,
            chat_id: 1,
            category_id: None,
            amount: Some(4000),
            description: Some("хлеб".to_string()),
            currency_code: Some(CurrencyCode::EUR),
        },
        5,
    );
    assert_eq!(changed.amount, 4000);
    assert!(changed.amount_modified);
    assert_eq!(changed.description, "хлеб");
    assert_eq!(changed.currency_code, CurrencyCode::EUR);
}
