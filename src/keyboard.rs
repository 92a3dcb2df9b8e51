//! Inline keyboards: grids of buttons whose payloads are action tokens.
use crate::action::{
    opposite_direction, Action, CategoryField, CreateCategory, CreateTransaction, DeleteCategory,
    Direction, ShowCategoryList, ShowCategorySettings, UpdateCategory,
    ApproveTransactionCategory,
};
use crate::models::Category;
use crate::codec::encode_spec;
use crate::transport::{base122_of, lemma_every_token_fits, token};
use vstd::prelude::*;

verus! {

/// A button: what it shows and the token it sends back when tapped.
pub struct Button {
    pub text: String,
    pub data: String,
}

pub struct ButtonView {
    pub text: Seq<char>,
    pub data: Seq<char>,
}

impl View for Button {
    type V = ButtonView;

    open spec fn view(&self) -> ButtonView {
        ButtonView { text: self.text@, data: self.data@ }
    }
}

pub open spec fn row_view(row: Seq<Button>) -> Seq<ButtonView> {
    row.map_values(|b: Button| b@)
}

pub open spec fn rows_view(rows: Seq<Vec<Button>>) -> Seq<Seq<ButtonView>> {
    rows.map_values(|r: Vec<Button>| row_view(r@))
}

/// Rows of buttons, top to bottom.
pub struct Keyboard {
    pub rows: Vec<Vec<Button>>,
}

impl View for Keyboard {
    type V = Seq<Seq<ButtonView>>;

    open spec fn view(&self) -> Seq<Seq<ButtonView>> {
        rows_view(self.rows@)
    }
}

/// A button showing `text` that triggers `a`.
pub open spec fn action_button(text: Seq<char>, a: Action) -> ButtonView {
    ButtonView { text, data: base122_of(encode_spec(a)) }
}

/// `items` cut into rows of `width`, in order; only the last row may be shorter.
pub open spec fn chunk_rows<T>(items: Seq<T>, width: nat) -> Seq<Seq<T>>
    decreases items.len(),
{
    if items.len() == 0 || width == 0 {
        seq![]
    } else if items.len() <= width {
        seq![items]
    } else {
        seq![items.subrange(0, width as int)] + chunk_rows(
            items.subrange(width as int, items.len() as int),
            width,
        )
    }
}

/// The rows, read left to right and top to bottom, one after the other.
pub open spec fn flatten_rows<T>(rows: Seq<Seq<T>>) -> Seq<T>
    decreases rows.len(),
{
    if rows.len() == 0 {
        seq![]
    } else {
        rows[0] + flatten_rows(rows.drop_first())
    }
}

/// Reading the rows back in order gives the items in the order they were given.
pub proof fn lemma_chunk_rows_keep_order<T>(items: Seq<T>, width: nat)
    requires
        width >= 1,
    ensures
        flatten_rows(chunk_rows(items, width)) == items,
    decreases items.len(),
{
    let rows = chunk_rows(items, width);
    if items.len() == 0 {
        assert(items =~= Seq::<T>::empty());
    } else if items.len() <= width {
        assert(rows.drop_first() =~= Seq::<Seq<T>>::empty());
        assert(flatten_rows(rows.drop_first()) == Seq::<T>::empty());
        assert(items + Seq::<T>::empty() =~= items);
    } else {
        let rest = items.subrange(width as int, items.len() as int);
        lemma_chunk_rows_keep_order(rest, width);
        assert(rows.drop_first() =~= chunk_rows(rest, width));
        assert(items.subrange(0, width as int) + rest =~= items);
    }
}

/// Every row holds between one and `width` items, and every row but the last holds
/// exactly `width`.
pub proof fn lemma_chunk_rows_shape<T>(items: Seq<T>, width: nat)
    requires
        width >= 1,
    ensures
        forall|r: int|
            0 <= r < chunk_rows(items, width).len() ==> 1 <= #[trigger] chunk_rows(
                items,
                width,
            )[r].len() <= width,
        forall|r: int|
            0 <= r < chunk_rows(items, width).len() - 1 ==> #[trigger] chunk_rows(
                items,
                width,
            )[r].len() == width,
        items.len() == 0 <==> chunk_rows(items, width).len() == 0,
    decreases items.len(),
{
    if items.len() > width {
        let rest = items.subrange(width as int, items.len() as int);
        lemma_chunk_rows_shape(rest, width);
        let rows = chunk_rows(items, width);
        assert forall|r: int| 1 <= r < rows.len() implies #[trigger] rows[r] == chunk_rows(rest, width)[r - 1] by {}
    }
}

/// Relies on `String::push_str`: appends `s` to `out`.
#[verifier::external_body]
pub(crate) fn push_text(out: &mut String, s: &str)
    ensures
        final(out)@ == old(out)@ + s@,
{
    out.push_str(s);
}

/// `a` followed by a space and `b`.
pub fn join_with_space(a: &String, b: &String) -> (r: String)
    ensures
        r@ == a@ + seq![' '] + b@,
{
    let mut s = a.clone();
    push_text(&mut s, " ");
    proof {
        reveal_strlit(" ");
    }
    push_text(&mut s, b.as_str());
    s
}

/// A button showing `text` that triggers `a`.
pub fn button(text: String, a: &Action) -> (r: Button)
    ensures
        r@ == action_button(text@, *a),
{
    proof {
        lemma_every_token_fits(*a);
    }
    match token(a) {
        Ok(t) => Button { text, data: t },
        Err(_) => vstd::pervasive::unreached(),
    }
}

/// Cuts `buttons` into rows of `width`, keeping their order.
pub fn chunk(buttons: Vec<Button>, width: usize) -> (r: Vec<Vec<Button>>)
    requires
        width >= 1,
    ensures
        rows_view(r@) == chunk_rows(row_view(buttons@), width as nat),
{
    let ghost all = row_view(buttons@);
    let mut rows: Vec<Vec<Button>> = Vec::new();
    let mut rest = buttons;
    assert(rows_view(rows@) + chunk_rows(row_view(rest@), width as nat) =~= chunk_rows(all, width as nat));
    while rest.len() > 0
        invariant
            width >= 1,
            rows_view(rows@) + chunk_rows(row_view(rest@), width as nat) == chunk_rows(all, width as nat),
        decreases rest.len(),
    {
        let ghost before = row_view(rest@);
        let tail = if rest.len() > width {
            rest.split_off(width)
        } else {
            Vec::new()
        };
        assert(row_view(rest@) =~= if before.len() > width {
            before.subrange(0, width as int)
        } else {
            before
        });
        assert(row_view(tail@) =~= if before.len() > width {
            before.subrange(width as int, before.len() as int)
        } else {
            Seq::<ButtonView>::empty()
        });
        let ghost old_rows = rows_view(rows@);
        rows.push(rest);
        assert(rows_view(rows@) =~= old_rows.push(row_view(rest@)));
        assert(chunk_rows(before, width as nat) =~= seq![row_view(rest@)] + chunk_rows(row_view(tail@), width as nat));
        assert(rows_view(rows@) + chunk_rows(row_view(tail@), width as nat) =~= old_rows + chunk_rows(before, width as nat));
        rest = tail;
    }
    assert(rows_view(rows@) =~= rows_view(rows@) + chunk_rows(row_view(rest@), width as nat));
    rows
}

/// Above this many categories, a list shows two per row instead of one.
pub const PAGE_THRESHOLD: usize = 6;

/// Row width of a category list of `n` entries.
pub open spec fn list_width(n: nat) -> nat {
    if n > PAGE_THRESHOLD {
        2
    } else {
        1
    }
}

/// Row width of the categorization keyboard: compact rows are wider.
pub open spec fn categorization_width(short: bool) -> nat {
    if short {
        5
    } else {
        3
    }
}

/// A category as a button shows it: its label, a space and its name.
pub open spec fn category_text(c: Category) -> Seq<char> {
    c.label@ + seq![' '] + c.name@
}

/// The button of a list entry: it opens the category's settings and remembers the list.
pub open spec fn category_entry_button(c: Category, list: ShowCategoryList) -> ButtonView {
    action_button(
        category_text(c),
        Action::ShowCategorySettings(
            ShowCategorySettings { category_id: c.id, navigated_from: Some(list) },
        ),
    )
}

pub open spec fn category_entry_buttons(cats: Seq<Category>, list: ShowCategoryList) -> Seq<
    ButtonView,
> {
    Seq::new(cats.len(), |i: int| category_entry_button(cats[i], list))
}

/// The fixed row under a category list: create a category, go back to the settings.
pub open spec fn list_control_row(list: ShowCategoryList) -> Seq<ButtonView> {
    seq![
        action_button("➕ Добавить"@, Action::CreateCategory(CreateCategory { direction: list.direction })),
        action_button("🔙 Назад"@, Action::ShowSettings),
    ]
}

/// The keyboard of a category list.
pub open spec fn category_list_view(list: ShowCategoryList, cats: Seq<Category>) -> Seq<Seq<ButtonView>> {
    chunk_rows(category_entry_buttons(cats, list), list_width(cats.len())).push(list_control_row(list))
}

/// A compact button shows the label alone.
pub open spec fn categorization_text(c: Category, short: bool) -> Seq<char> {
    if short {
        c.label@
    } else {
        category_text(c)
    }
}

pub open spec fn categorization_button(c: Category, t: CreateTransaction) -> ButtonView {
    action_button(
        categorization_text(c, t.is_short_mode),
        Action::ApproveTransactionCategory(
            ApproveTransactionCategory { transaction_id: t.transaction_id, category_id: c.id },
        ),
    )
}

pub open spec fn categorization_buttons(cats: Seq<Category>, t: CreateTransaction) -> Seq<ButtonView> {
    Seq::new(cats.len(), |i: int| categorization_button(cats[i], t))
}

/// The fixed row under the categorization keyboard: swap the direction, toggle density.
pub open spec fn categorization_control_row(t: CreateTransaction) -> Seq<ButtonView> {
    seq![
        action_button(
            if t.direction == Direction::Expense { "📈 Доходы"@ } else { "📉 Расходы"@ },
            Action::CreateTransaction(CreateTransaction { direction: opposite_direction(t.direction), ..t }),
        ),
        action_button(
            if t.is_short_mode { "📔 Подробный вид"@ } else { "📔 Компактный вид"@ },
            Action::CreateTransaction(CreateTransaction { is_short_mode: !t.is_short_mode, ..t }),
        ),
    ]
}

/// The keyboard that asks which category a transaction belongs to.
pub open spec fn categorization_view(t: CreateTransaction, cats: Seq<Category>) -> Seq<Seq<ButtonView>> {
    chunk_rows(categorization_buttons(cats, t), categorization_width(t.is_short_mode)).push(
        categorization_control_row(t),
    )
}

fn category_entry_buttons_exec(list: &ShowCategoryList, categories: &Vec<Category>) -> (r: Vec<Button>)
    ensures
        row_view(r@) == category_entry_buttons(categories@, *list),
{
    let mut out: Vec<Button> = Vec::new();
    let mut i: usize = 0;
    while i < categories.len()
        invariant
            i <= categories@.len(),
            row_view(out@) == category_entry_buttons(categories@.subrange(0, i as int), *list),
        decreases categories.len() - i,
    {
        let c = &categories[i];
        let a = Action::ShowCategorySettings(
            ShowCategorySettings { category_id: c.id, navigated_from: Some(*list) },
        );
        let b = button(join_with_space(&c.label, &c.name), &a);
        let ghost prev = row_view(out@);
        out.push(b);
        assert(row_view(out@) =~= prev.push(b@));
        assert(category_entry_buttons(categories@.subrange(0, i + 1), *list)
            =~= category_entry_buttons(categories@.subrange(0, i as int), *list).push(
            category_entry_button(categories@[i as int], *list),
        ));
        i = i + 1;
    }
    assert(categories@.subrange(0, i as int) =~= categories@);
    out
}

/// The keyboard of a category list: one button per category in the given order, two
/// per row above `PAGE_THRESHOLD` categories and one per row otherwise, then the row
/// that creates a category or goes back.
pub fn category_list_keyboard(list: &ShowCategoryList, categories: &Vec<Category>) -> (r: Keyboard)
    ensures
        r@ == category_list_view(*list, categories@),
{
    let items = category_entry_buttons_exec(list, categories);
    let width: usize = if categories.len() > PAGE_THRESHOLD {
        2
    } else {
        1
    };
    let mut rows = chunk(items, width);
    let control = vec![
        button("➕ Добавить".to_owned(), &Action::CreateCategory(CreateCategory { direction: list.direction })),
        button("🔙 Назад".to_owned(), &Action::ShowSettings),
    ];
    assert(row_view(control@) =~= list_control_row(*list));
    let ghost before = rows_view(rows@);
    rows.push(control);
    assert(rows_view(rows@) =~= before.push(list_control_row(*list)));
    Keyboard { rows }
}

fn categorization_buttons_exec(t: &CreateTransaction, categories: &Vec<Category>) -> (r: Vec<Button>)
    ensures
        row_view(r@) == categorization_buttons(categories@, *t),
{
    let mut out: Vec<Button> = Vec::new();
    let mut i: usize = 0;
    while i < categories.len()
        invariant
            i <= categories@.len(),
            row_view(out@) == categorization_buttons(categories@.subrange(0, i as int), *t),
        decreases categories.len() - i,
    {
        let c = &categories[i];
        let a = Action::ApproveTransactionCategory(
            ApproveTransactionCategory { transaction_id: t.transaction_id, category_id: c.id },
        );
        let text = if t.is_short_mode {
            c.label.clone()
        } else {
            join_with_space(&c.label, &c.name)
        };
        let b = button(text, &a);
        let ghost prev = row_view(out@);
        out.push(b);
        assert(row_view(out@) =~= prev.push(b@));
        assert(categorization_buttons(categories@.subrange(0, i + 1), *t)
            =~= categorization_buttons(categories@.subrange(0, i as int), *t).push(
            categorization_button(categories@[i as int], *t),
        ));
        i = i + 1;
    }
    assert(categories@.subrange(0, i as int) =~= categories@);
    out
}

/// The keyboard that files transaction `t` under one of `categories`: five compact
/// buttons (label only) or three detailed ones (label and name) per row, in the given
/// order, then the row that swaps the direction and the one that toggles density.
pub fn categorization_keyboard(t: &CreateTransaction, categories: &Vec<Category>) -> (r: Keyboard)
    ensures
        r@ == categorization_view(*t, categories@),
{
    let items = categorization_buttons_exec(t, categories);
    let width: usize = if t.is_short_mode {
        5
    } else {
        3
    };
    let mut rows = chunk(items, width);
    let swap_text = if t.direction == Direction::Expense {
        "📈 Доходы".to_owned()
    } else {
        "📉 Расходы".to_owned()
    };
    let density_text = if t.is_short_mode {
        "📔 Подробный вид".to_owned()
    } else {
        "📔 Компактный вид".to_owned()
    };
    let swap = Action::CreateTransaction(
        CreateTransaction {
            transaction_id: t.transaction_id,
            direction: t.direction.opposite(),
            is_short_mode: t.is_short_mode,
        },
    );
    let density = Action::CreateTransaction(
        CreateTransaction {
            transaction_id: t.transaction_id,
            direction: t.direction,
            is_short_mode: !t.is_short_mode,
        },
    );
    let control = vec![button(swap_text, &swap), button(density_text, &density)];
    assert(row_view(control@) =~= categorization_control_row(*t));
    let ghost before = rows_view(rows@);
    rows.push(control);
    assert(rows_view(rows@) =~= before.push(categorization_control_row(*t)));
    Keyboard { rows }
}

/// The item rows of a list keyboard read back in order give one button per category,
/// in the repository's order; above `PAGE_THRESHOLD` categories every row holds at most
/// two buttons and all item rows but the last exactly two; otherwise each category has
/// a row of its own.
pub proof fn lemma_category_list_layout(list: ShowCategoryList, cats: Seq<Category>)
    ensures
        ({
            let kb = category_list_view(list, cats);
            let items = kb.drop_last();
            &&& flatten_rows(items) == category_entry_buttons(cats, list)
            &&& kb.last() == list_control_row(list)
            &&& cats.len() > PAGE_THRESHOLD ==> (forall|r: int|
                0 <= r < kb.len() ==> #[trigger] kb[r].len() <= 2)
            &&& cats.len() > PAGE_THRESHOLD ==> (forall|r: int|
                0 <= r < items.len() - 1 ==> #[trigger] items[r].len() == 2)
            &&& cats.len() <= PAGE_THRESHOLD ==> (forall|r: int|
                0 <= r < items.len() ==> #[trigger] items[r].len() == 1)
        }),
{
    let w = list_width(cats.len());
    let entries = category_entry_buttons(cats, list);
    let kb = category_list_view(list, cats);
    assert(kb.drop_last() =~= chunk_rows(entries, w));
    lemma_chunk_rows_keep_order(entries, w);
    lemma_chunk_rows_shape(entries, w);
    assert forall|r: int| 0 <= r < kb.len() implies #[trigger] kb[r].len() <= list_width(cats.len()) || r == kb.len() - 1 by {
        if r < kb.len() - 1 {
            assert(kb[r] == chunk_rows(entries, w)[r]);
        }
    }
}

/// The categorization keyboard keeps the categories' order, and its item rows hold
/// five buttons in compact mode and three otherwise, but for the last.
pub proof fn lemma_categorization_layout(t: CreateTransaction, cats: Seq<Category>)
    ensures
        ({
            let kb = categorization_view(t, cats);
            let items = kb.drop_last();
            let w = categorization_width(t.is_short_mode);
            &&& flatten_rows(items) == categorization_buttons(cats, t)
            &&& kb.last() == categorization_control_row(t)
            &&& forall|r: int| 0 <= r < items.len() ==> 1 <= #[trigger] items[r].len() <= w
            &&& forall|r: int| 0 <= r < items.len() - 1 ==> #[trigger] items[r].len() == w
        }),
{
    let w = categorization_width(t.is_short_mode);
    let entries = categorization_buttons(cats, t);
    let kb = categorization_view(t, cats);
    assert(kb.drop_last() =~= chunk_rows(entries, w));
    lemma_chunk_rows_keep_order(entries, w);
    lemma_chunk_rows_shape(entries, w);
}

} // verus!
