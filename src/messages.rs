//! Texts and keyboards of the bot's menus.
use crate::action::{
    Action, CategoryField, DeleteCategory, Direction, ShowCategoryList, UpdateCategory,
};
use crate::declension::{Declinable, GrammaticalNumber, Labeled, NameCase};
use crate::keyboard::{action_button, button, push_text, row_view, rows_view, ButtonView, Keyboard};
use vstd::prelude::*;

verus! {

/// The settings menu: one list of categories per direction.
pub struct ShowSettingsMessageBuilder {}

pub open spec fn settings_view() -> Seq<Seq<ButtonView>> {
    seq![
        seq![
            action_button("📉 Расходы"@, Action::ShowCategoryList(ShowCategoryList { direction: Direction::Expense })),
            action_button("📈 Доходы"@, Action::ShowCategoryList(ShowCategoryList { direction: Direction::Income })),
        ],
    ]
}

impl ShowSettingsMessageBuilder {
    pub fn new() -> (r: ShowSettingsMessageBuilder) {
        ShowSettingsMessageBuilder {  }
    }

    pub fn text(&self) -> (r: String)
        ensures
            r@ == "⚙️ Выберите раздел настроек"@,
    {
        "⚙️ Выберите раздел настроек".to_owned()
    }

    pub fn reply_markup(&self) -> (r: Keyboard)
        ensures
            r@ == settings_view(),
    {
        let row = vec![
            button(
                "📉 Расходы".to_owned(),
                &Action::ShowCategoryList(ShowCategoryList { direction: Direction::Expense }),
            ),
            button(
                "📈 Доходы".to_owned(),
                &Action::ShowCategoryList(ShowCategoryList { direction: Direction::Income }),
            ),
        ];
        let rows = vec![row];
        assert(rows_view(rows@) =~= settings_view()) by {
            assert(row_view(rows@[0]@) =~= settings_view()[0]);
        }
        Keyboard { rows }
    }
}

/// A keyboard of one row holding one button.
fn single_button(text: String, a: &Action) -> (r: Keyboard)
    ensures
        r@ == seq![seq![action_button(text@, *a)]],
{
    let rows = vec![vec![button(text, a)]];
    assert(rows_view(rows@) =~= seq![seq![action_button(text@, *a)]]) by {
        assert(row_view(rows@[0]@) =~= seq![action_button(text@, *a)]);
    }
    Keyboard { rows }
}

/// The prompt that opens the creation of a category, and the notice when it is cancelled.
pub struct CreateCategoryMessageBuilder {}

pub open spec fn creation_prompt(direction: Direction) -> Seq<char> {
    if direction == Direction::Expense {
        "📉 Введите название новой категории расходов и ежемесячный лимит по ней, используя следующий формат:\n\n💼 Зарплата \\- 500 000"@
    } else {
        "📈 Введите название новой категории доходов и ежемесячную плановую сумму для неё, используя следующий формат:\n\n🍎 Фрукты \\- 300"@
    }
}

pub open spec fn creation_cancelled(direction: Direction) -> Seq<char> {
    if direction == Direction::Expense {
        "⚠️ Создание категории расходов отменено."@
    } else {
        "⚠️ Создание категории доходов отменено."@
    }
}

impl CreateCategoryMessageBuilder {
    pub fn new() -> (r: CreateCategoryMessageBuilder) {
        CreateCategoryMessageBuilder {  }
    }

    /// The prompt asking for the new category's description.
    pub fn text(&self, direction: Direction) -> (r: String)
        requires
            direction != Direction::Unspecified,
        ensures
            r@ == creation_prompt(direction),
    {
        if direction == Direction::Expense {
            "📉 Введите название новой категории расходов и ежемесячный лимит по ней, используя следующий формат:\n\n💼 Зарплата \\- 500 000".to_owned()
        } else {
            "📈 Введите название новой категории доходов и ежемесячную плановую сумму для неё, используя следующий формат:\n\n🍎 Фрукты \\- 300".to_owned()
        }
    }

    /// The prompt's keyboard: a single button that cancels the creation.
    pub fn reply_markup(&self) -> (r: Keyboard)
        ensures
            r@ == seq![seq![action_button("❌ Отменить"@, Action::CancelCreateCategory)]],
    {
        single_button("❌ Отменить".to_owned(), &Action::CancelCreateCategory)
    }

    pub fn cancelled_text(&self, direction: Direction) -> (r: String)
        requires
            direction != Direction::Unspecified,
        ensures
            r@ == creation_cancelled(direction),
    {
        if direction == Direction::Expense {
            "⚠️ Создание категории расходов отменено.".to_owned()
        } else {
            "⚠️ Создание категории доходов отменено.".to_owned()
        }
    }

    /// The notice's keyboard: back to the list of the cancelled category's direction.
    pub fn cancelled_reply_markup(&self, direction: Direction) -> (r: Keyboard)
        ensures
            r@ == seq![
                seq![
                    action_button(
                        "🔙 К настройкам категорий"@,
                        Action::ShowCategoryList(ShowCategoryList { direction }),
                    ),
                ],
            ],
    {
        single_button(
            "🔙 К настройкам категорий".to_owned(),
            &Action::ShowCategoryList(ShowCategoryList { direction }),
        )
    }
}

/// The heading of a category list, such as «📉 Выберите категорию расходов».
pub fn category_list_text(direction: Direction) -> (r: String)
    requires
        direction != Direction::Unspecified,
    ensures
        r@ == direction.label_text() + " Выберите категорию "@ + direction.form(
            NameCase::Genitive,
            GrammaticalNumber::Plural,
        ),
{
    let mut s = direction.label().to_owned();
    push_text(&mut s, " Выберите категорию ");
    push_text(&mut s, direction.decline(NameCase::Genitive, GrammaticalNumber::Plural));
    s
}

/// The keyboard of a field-edit prompt: a single button that cancels the edit.
pub fn update_prompt_keyboard() -> (r: Keyboard)
    ensures
        r@ == seq![seq![action_button("❌ Отменить"@, Action::CancelUpdateCategory)]],
{
    single_button("❌ Отменить".to_owned(), &Action::CancelUpdateCategory)
}

pub open spec fn edit(id: i64, field: CategoryField) -> Action {
    Action::UpdateCategory(UpdateCategory { category_id: id, field })
}

/// Where «back» leads from a category's settings: the list it was opened from, else
/// the list of its own direction.
pub open spec fn back_target(direction: Direction, navigated_from: Option<ShowCategoryList>) -> Action {
    match navigated_from {
        Some(l) => Action::ShowCategoryList(l),
        None => Action::ShowCategoryList(ShowCategoryList { direction }),
    }
}

pub open spec fn category_settings_view(
    id: i64,
    direction: Direction,
    navigated_from: Option<ShowCategoryList>,
) -> Seq<Seq<ButtonView>> {
    seq![
        seq![
            action_button("✏ Изменить название"@, edit(id, CategoryField::Name)),
            action_button("🏷 Изменить ярлык"@, edit(id, CategoryField::Label)),
        ],
        seq![
            action_button("🔄 Изменить тип"@, edit(id, CategoryField::Direction)),
            action_button(
                if direction == Direction::Expense { "🎯 Изменить лимит"@ } else { "🎯 Изменить план"@ },
                edit(id, CategoryField::TargetAmount),
            ),
        ],
        seq![action_button("📅 Изменить регулярность"@, edit(id, CategoryField::IsRegular))],
        seq![
            action_button("❌ Удалить"@, Action::DeleteCategory(DeleteCategory { category_id: id })),
            action_button("🔙 Назад"@, back_target(direction, navigated_from)),
        ],
    ]
}

fn edit_button(text: String, id: i64, field: CategoryField) -> (r: crate::keyboard::Button)
    ensures
        r@ == action_button(text@, edit(id, field)),
{
    button(text, &Action::UpdateCategory(UpdateCategory { category_id: id, field }))
}

/// The settings keyboard of category `id`: edit each field, delete it, go back.
pub fn category_settings_keyboard(
    id: i64,
    direction: Direction,
    navigated_from: Option<ShowCategoryList>,
) -> (r: Keyboard)
    requires
        direction != Direction::Unspecified,
    ensures
        r@ == category_settings_view(id, direction, navigated_from),
{
    let target_text = if direction == Direction::Expense {
        "🎯 Изменить лимит".to_owned()
    } else {
        "🎯 Изменить план".to_owned()
    };
    let back = match navigated_from {
        Some(l) => Action::ShowCategoryList(l),
        None => Action::ShowCategoryList(ShowCategoryList { direction }),
    };
    let rows = vec![
        vec![
            edit_button("✏ Изменить название".to_owned(), id, CategoryField::Name),
            edit_button("🏷 Изменить ярлык".to_owned(), id, CategoryField::Label),
        ],
        vec![
            edit_button("🔄 Изменить тип".to_owned(), id, CategoryField::Direction),
            edit_button(target_text, id, CategoryField::TargetAmount),
        ],
        vec![edit_button("📅 Изменить регулярность".to_owned(), id, CategoryField::IsRegular)],
        vec![
            button("❌ Удалить".to_owned(), &Action::DeleteCategory(DeleteCategory { category_id: id })),
            button("🔙 Назад".to_owned(), &back),
        ],
    ];
    assert(rows_view(rows@) =~= category_settings_view(id, direction, navigated_from)) by {
        assert(row_view(rows@[0]@) =~= category_settings_view(id, direction, navigated_from)[0]);
        assert(row_view(rows@[1]@) =~= category_settings_view(id, direction, navigated_from)[1]);
        assert(row_view(rows@[2]@) =~= category_settings_view(id, direction, navigated_from)[2]);
        assert(row_view(rows@[3]@) =~= category_settings_view(id, direction, navigated_from)[3]);
    }
    Keyboard { rows }
}

} // verus!
