use budgetgram::action::{
    Action, ApproveTransactionCategory, CategoryField, CreateCategory, CreateTransaction,
    DeleteCategory, Direction, ShowCategoryList, ShowCategorySettings, UpdateCategory,
};
use budgetgram::dispatch::{dispatch, Dispatch};
use budgetgram::keyboard::{
    categorization_keyboard, category_list_keyboard, chunk, join_with_space, Button, Keyboard,
    PAGE_THRESHOLD,
};
use budgetgram::messages::{
    category_list_text, category_settings_keyboard, update_prompt_keyboard,
    CreateCategoryMessageBuilder, ShowSettingsMessageBuilder,
};
use budgetgram::models::Category;
use budgetgram::transport::{parse_token, token};

fn category(id: i64, label: &str, name: &str) -> Category {
    Category {
        id,
        chat_id: 1,
        name: name.to_string(),
        label: label.to_string(),
        direction: Direction::Expense,
        is_regular: true,
        target_amount: None,
        created_at: 0,
        updated_at: 0,
        deleted_at: None,
    }
}

fn categories(n: i64) -> Vec<Category> {
    (1..=n).map(|i| category(i * 10, "🍎", &format!("c{}", i))).collect()
}

fn row_lengths(k: &Keyboard) -> Vec<usize> {
    k.rows.iter().map(|r| r.len()).collect()
}

fn action_of(b: &Button) -> Action {
    parse_token(&b.data).unwrap()
}

fn expense_list() -> ShowCategoryList {
    ShowCategoryList { direction: Direction::Expense }
}

#[test]
fn seven_categories_give_rows_of_at_most_two() {
    assert_eq!(PAGE_THRESHOLD, 6);
    let k = category_list_keyboard(&expense_list(), &categories(7));
    assert_eq!(row_lengths(&k), vec![2, 2, 2, 1, 2]);
    assert!(k.rows.iter().all(|r| r.len() <= 2));
}

#[test]
fn four_categories_give_single_item_rows() {
    let k = category_list_keyboard(&expense_list(), &categories(4));
    assert_eq!(row_lengths(&k), vec![1, 1, 1, 1, 2]);
}

#[test]
fn six_categories_stay_single_and_twelve_pair_up() {
    let six = category_list_keyboard(&expense_list(), &categories(6));
    assert_eq!(row_lengths(&six), vec![1, 1, 1, 1, 1, 1, 2]);
    let twelve = category_list_keyboard(&expense_list(), &categories(12));
    assert_eq!(row_lengths(&twelve), vec![2, 2, 2, 2, 2, 2, 2]);
}

#[test]
fn empty_list_keeps_only_the_control_row() {
    let k = category_list_keyboard(&expense_list(), &Vec::new());
    assert_eq!(row_lengths(&k), vec![2]);
}

#[test]
fn list_buttons_show_label_and_name_and_open_settings() {
    let cats = vec![category(5, "🍎", "Фрукты")];
    let k = category_list_keyboard(&expense_list(), &cats);
    assert_eq!(k.rows[0][0].text, "🍎 Фрукты");
    assert_eq!(
        action_of(&k.rows[0][0]),
        Action::ShowCategorySettings(ShowCategorySettings {
            category_id: 5,
            navigated_from: Some(expense_list()),
        })
    );
    let control = &k.rows[1];
    assert_eq!(control[0].text, "➕ Добавить");
    assert_eq!(
        action_of(&control[0]),
        Action::CreateCategory(CreateCategory { direction: Direction::Expense })
    );
    assert_eq!(control[1].text, "🔙 Назад");
    assert_eq!(action_of(&control[1]), Action::ShowSettings);
}

#[test]
fn list_token_dispatch_reproduces_repository_order() {
    let list = expense_list();
    let t = token(&Action::ShowCategoryList(list)).unwrap();
    let routed = match dispatch(Some(&t)) {
        Dispatch::Handle(Action::ShowCategoryList(l)) => l,
        other => panic!("unexpected {:?}", other),
    };
    assert_eq!(routed, list);
    let repository = vec![
        category(30, "🚗", "Машина"),
        category(10, "🍎", "Фрукты"),
        category(20, "🏠", "Дом"),
        category(90, "🎁", "Подарки"),
        category(40, "💊", "Здоровье"),
        category(70, "📚", "Книги"),
        category(60, "☕", "Кофе"),
        category(50, "🎬", "Кино"),
    ];
    let k = category_list_keyboard(&routed, &repository);
    let items: Vec<&Button> = k.rows[..k.rows.len() - 1].iter().flatten().collect();
    assert_eq!(items.len(), repository.len());
    for (b, c) in items.iter().zip(repository.iter()) {
        assert_eq!(
            action_of(b),
            Action::ShowCategorySettings(ShowCategorySettings {
                category_id: c.id,
                navigated_from: Some(list),
            })
        );
        assert_eq!(b.text, format!("{} {}", c.label, c.name));
    }
}

#[test]
fn compact_categorization_has_five_label_buttons_per_row() {
    let t = CreateTransaction { transaction_id: 9, direction: Direction::Expense, is_short_mode: true };
    let k = categorization_keyboard(&t, &categories(12));
    assert_eq!(row_lengths(&k), vec![5, 5, 2, 2]);
    assert_eq!(k.rows[0][0].text, "🍎");
    assert_eq!(
        action_of(&k.rows[2][1]),
        Action::ApproveTransactionCategory(ApproveTransactionCategory {
            transaction_id: 9,
            category_id: 120,
        })
    );
    let control = &k.rows[3];
    assert_eq!(control[0].text, "📈 Доходы");
    assert_eq!(
        action_of(&control[0]),
        Action::CreateTransaction(CreateTransaction {
            transaction_id: 9,
            direction: Direction::Income,
            is_short_mode: true,
        })
    );
    assert_eq!(control[1].text, "📔 Подробный вид");
    assert_eq!(
        action_of(&control[1]),
        Action::CreateTransaction(CreateTransaction {
            transaction_id: 9,
            direction: Direction::Expense,
            is_short_mode: false,
        })
    );
}

#[test]
fn detailed_categorization_has_three_named_buttons_per_row() {
    let t = CreateTransaction { transaction_id: 9, direction: Direction::Income, is_short_mode: false };
    let k = categorization_keyboard(&t, &categories(7));
    assert_eq!(row_lengths(&k), vec![3, 3, 1, 2]);
    assert_eq!(k.rows[0][1].text, "🍎 c2");
    assert_eq!(k.rows[3][0].text, "📉 Расходы");
    assert_eq!(k.rows[3][1].text, "📔 Компактный вид");
}

#[test]
fn chunking_keeps_order() {
    let buttons: Vec<Button> = (0..5)
        .map(|i| Button { text: format!("{}", i), data: String::new() })
        .collect();
    let rows = chunk(buttons, 2);
    let texts: Vec<Vec<String>> =
        rows.iter().map(|r| r.iter().map(|b| b.text.clone()).collect()).collect();
    assert_eq!(texts, vec![vec!["0", "1"], vec!["2", "3"], vec!["4"]]);
}

#[test]
fn join_puts_one_space_between() {
    assert_eq!(join_with_space(&"a".to_string(), &"b c".to_string()), "a b c");
}

#[test]
fn settings_menu_offers_both_lists() {
    let b = ShowSettingsMessageBuilder::new();
    assert_eq!(b.text(), "⚙️ Выберите раздел настроек");
    let k = b.reply_markup();
    assert_eq!(row_lengths(&k), vec![2]);
    assert_eq!(k.rows[0][0].text, "📉 Расходы");
    assert_eq!(
        action_of(&k.rows[0][0]),
        Action::ShowCategoryList(ShowCategoryList { direction: Direction::Expense })
    );
    assert_eq!(
        action_of(&k.rows[0][1]),
        Action::ShowCategoryList(ShowCategoryList { direction: Direction::Income })
    );
}

#[test]
fn creation_prompt_and_cancel_notice() {
    let b = CreateCategoryMessageBuilder::new();
    assert!(b.text(Direction::Expense).starts_with("📉 Введите название новой категории расходов"));
    assert!(b.text(Direction::Income).ends_with("🍎 Фрукты \\- 300"));
    let k = b.reply_markup();
    assert_eq!(k.rows[0][0].text, "❌ Отменить");
    assert_eq!(action_of(&k.rows[0][0]), Action::CancelCreateCategory);
    assert_eq!(b.cancelled_text(Direction::Income), "⚠️ Создание категории доходов отменено.");
    let back = b.cancelled_reply_markup(Direction::Income);
    assert_eq!(
        action_of(&back.rows[0][0]),
        Action::ShowCategoryList(ShowCategoryList { direction: Direction::Income })
    );
}

#[test]
fn list_heading_declines_the_direction() {
    assert_eq!(category_list_text(Direction::Expense), "📉 Выберите категорию расходов");
    assert_eq!(category_list_text(Direction::Income), "📈 Выберите категорию доходов");
}

#[test]
fn category_settings_keyboard_edits_each_field() {
    let from = ShowCategoryList { direction: Direction::Income };
    let k = category_settings_keyboard(8, Direction::Income, Some(from));
    assert_eq!(row_lengths(&k), vec![2, 2, 1, 2]);
    let edit = |f| Action::UpdateCategory(UpdateCategory { category_id: 8, field: f });
    assert_eq!(action_of(&k.rows[0][0]), edit(CategoryField::Name));
    assert_eq!(action_of(&k.rows[0][1]), edit(CategoryField::Label));
    assert_eq!(action_of(&k.rows[1][0]), edit(CategoryField::Direction));
    assert_eq!(k.rows[1][1].text, "🎯 Изменить план");
    assert_eq!(action_of(&k.rows[1][1]), edit(CategoryField::TargetAmount));
    assert_eq!(action_of(&k.rows[2][0]), edit(CategoryField::IsRegular));
    assert_eq!(action_of(&k.rows[3][0]), Action::DeleteCategory(DeleteCategory { category_id: 8 }));
    assert_eq!(action_of(&k.rows[3][1]), Action::ShowCategoryList(from));
    let orphan = category_settings_keyboard(8, Direction::Expense, None);
    assert_eq!(orphan.rows[1][1].text, "🎯 Изменить лимит");
    assert_eq!(
        action_of(&orphan.rows[3][1]),
        Action::ShowCategoryList(ShowCategoryList { direction: Direction::Expense })
    );
}

#[test]
fn field_edit_prompt_can_be_cancelled() {
    let k = update_prompt_keyboard();
    assert_eq!(action_of(&k.rows[0][0]), Action::CancelUpdateCategory);
}
