//! Categories and transactions as the core sees them, and the requests that change them.
//! Times are seconds since the Unix epoch.
use crate::action::Direction;
use vstd::prelude::*;

verus! {

#[derive(Clone, Copy, Debug, PartialEq, Eq, Structural)]
pub enum CurrencyCode {
    USD,
    EUR,
    JPY,
    RUB,
}

pub open spec fn currency_of_code(s: Seq<char>) -> Option<CurrencyCode> {
    if s == "USD"@ {
        Some(CurrencyCode::USD)
    } else if s == "EUR"@ {
        Some(CurrencyCode::EUR)
    } else if s == "JPY"@ {
        Some(CurrencyCode::JPY)
    } else if s == "RUB"@ {
        Some(CurrencyCode::RUB)
    } else {
        None
    }
}

impl CurrencyCode {
    /// The ISO 4217 code.
    pub fn as_code_str(&self) -> (r: &'static str)
        ensures
            r@ == match *self {
                CurrencyCode::USD => "USD"@,
                CurrencyCode::EUR => "EUR"@,
                CurrencyCode::JPY => "JPY"@,
                CurrencyCode::RUB => "RUB"@,
            },
    {
        match self {
            CurrencyCode::USD => "USD",
            CurrencyCode::EUR => "EUR",
            CurrencyCode::JPY => "JPY",
            CurrencyCode::RUB => "RUB",
        }
    }

    /// The currency with the ISO 4217 code `value`, among those supported.
    pub fn from_code_str(value: &str) -> (r: Option<CurrencyCode>)
        ensures
            r == currency_of_code(value@),
    {
        let v = value.to_owned();
        if v == "USD".to_owned() {
            Some(CurrencyCode::USD)
        } else if v == "EUR".to_owned() {
            Some(CurrencyCode::EUR)
        } else if v == "JPY".to_owned() {
            Some(CurrencyCode::JPY)
        } else if v == "RUB".to_owned() {
            Some(CurrencyCode::RUB)
        } else {
            None
        }
    }

    pub fn as_symbol_str(&self) -> (r: &'static str)
        ensures
            r@ == match *self {
                CurrencyCode::USD => "$"@,
                CurrencyCode::EUR => "€"@,
                CurrencyCode::JPY => "¥"@,
                CurrencyCode::RUB => "₽"@,
            },
    {
        match self {
            CurrencyCode::USD => "$",
            CurrencyCode::EUR => "€",
            CurrencyCode::JPY => "¥",
            CurrencyCode::RUB => "₽",
        }
    }
}

/// A spending or income category of one chat.
#[derive(Clone, Debug)]
pub struct Category {
    pub id: i64,
    pub chat_id: i64,
    pub name: String,
    pub label: String,
    pub direction: Direction,
    pub is_regular: bool,
    pub target_amount: Option<i64>,
    pub created_at: i64,
    pub updated_at: i64,
    pub deleted_at: Option<i64>,
}

/// A logged amount, in hundredths of the currency unit.
#[derive(Clone, Debug)]
pub struct Transaction {
    pub id: i64,
    pub chat_id: i64,
    pub category_id: Option<i64>,
    pub amount: i64,
    pub amount_modified: bool,
    pub description: String,
    pub currency_code: CurrencyCode,
    pub created_at: i64,
    pub updated_at: i64,
    pub deleted_at: Option<i64>,
}

pub struct CreateCategoryRequest {
    pub chat_id: i64,
    pub name: String,
    pub label: String,
    pub direction: Direction,
    pub is_regular: bool,
    pub target_amount: Option<i64>,
}

/// Changes to a category; a field left `None` keeps its value.
pub struct UpdateCategoryRequest {
    pub id: i64,
    pub chat_id: i64,
    pub name: Option<String>,
    pub label: Option<String>,
    pub direction: Option<Direction>,
    pub is_regular: Option<bool>,
    pub target_amount: Option<i64>,
}

pub struct CreateTransactionRequest {
    pub chat_id: i64,
    pub category_id: Option<i64>,
    pub amount: i64,
    pub description: String,
    pub currency_code: CurrencyCode,
}

/// Changes to a transaction; a field left `None` keeps its value.
pub struct UpdateTransactionRequest {
    pub id: i64,
    pub chat_id: i64,
    pub category_id: Option<i64>,
    pub amount: Option<i64>,
    pub description: Option<String>,
    pub currency_code: Option<CurrencyCode>,
}

/// Id of a record the repository has not stored yet.
pub const UNSAVED_ID: i64 = -1;

/// The category a creation request describes, before the repository gives it an id.
pub fn new_category(request: CreateCategoryRequest) -> (r: Category)
    ensures
        r.id == UNSAVED_ID,
        r.chat_id == request.chat_id,
        r.name == request.name,
        r.label == request.label,
        r.direction == request.direction,
        r.is_regular == request.is_regular,
        r.target_amount == request.target_amount,
        r.created_at == 0 && r.updated_at == 0,
        r.deleted_at is None,
{
    Category {
        id: UNSAVED_ID,
        chat_id: request.chat_id,
        name: request.name,
        label: request.label,
        direction: request.direction,
        is_regular: request.is_regular,
        target_amount: request.target_amount,
        created_at: 0,
        updated_at: 0,
        deleted_at: None,
    }
}

/// `category` with the changes of `request`.
pub fn apply_category_update(category: Category, request: UpdateCategoryRequest) -> (r: Category)
    ensures
        r.id == category.id && r.chat_id == category.chat_id,
        r.name == match request.name { Some(n) => n, None => category.name },
        r.label == match request.label { Some(l) => l, None => category.label },
        r.direction == match request.direction { Some(d) => d, None => category.direction },
        r.is_regular == match request.is_regular { Some(b) => b, None => category.is_regular },
        r.target_amount == match request.target_amount {
            Some(t) => Some(t),
            None => category.target_amount,
        },
        r.created_at == category.created_at && r.updated_at == category.updated_at,
        r.deleted_at == category.deleted_at,
{
    let mut c = category;
    if let Some(name) = request.name {
        c.name = name;
    }
    if let Some(label) = request.label {
        c.label = label;
    }
    if let Some(direction) = request.direction {
        c.direction = direction;
    }
    if let Some(is_regular) = request.is_regular {
        c.is_regular = is_regular;
    }
    if let Some(target_amount) = request.target_amount {
        c.target_amount = Some(target_amount);
    }
    c
}

/// The transaction a creation request describes, before the repository gives it an id.
pub fn new_transaction(request: CreateTransactionRequest) -> (r: Transaction)
    ensures
        r.id == UNSAVED_ID,
        r.chat_id == request.chat_id,
        r.category_id == request.category_id,
        r.amount == request.amount,
        !r.amount_modified,
        r.description == request.description,
        r.currency_code == request.currency_code,
        r.created_at == 0 && r.updated_at == 0,
        r.deleted_at is None,
{
    Transaction {
        id: UNSAVED_ID,
        chat_id: request.chat_id,
        category_id: request.category_id,
        amount: request.amount,
        amount_modified: false,
        description: request.description,
        currency_code: request.currency_code,
        created_at: 0,
        updated_at: 0,
        deleted_at: None,
    }
}

/// `transaction` with the changes of `request`, updated at `now`; a new amount marks
/// the amount as modified.
pub fn apply_transaction_update(
    transaction: Transaction,
    request: UpdateTransactionRequest,
    now: i64,
) -> (r: Transaction)
    ensures
        r.id == transaction.id && r.chat_id == transaction.chat_id,
        r.category_id == match request.category_id {
            Some(c) => Some(c),
            None => transaction.category_id,
        },
        r.amount == match request.amount { Some(a) => a, None => transaction.amount },
        r.amount_modified == (request.amount is Some || transaction.amount_modified),
        r.description == match request.description {
            Some(d) => d,
            None => transaction.description,
        },
        r.currency_code == match request.currency_code {
            Some(c) => c,
            None => transaction.currency_code,
        },
        r.created_at == transaction.created_at,
        r.updated_at == now,
        r.deleted_at == transaction.deleted_at,
{
    let mut t = transaction;
    if let Some(category_id) = request.category_id {
        t.category_id = Some(category_id);
    }
    if let Some(amount) = request.amount {
        t.amount = amount;
        t.amount_modified = true;
    }
    if let Some(description) = request.description {
        t.description = description;
    }
    if let Some(currency_code) = request.currency_code {
        t.currency_code = currency_code;
    }
    t.updated_at = now;
    t
}

} // verus!
