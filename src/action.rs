//! The closed set of actions a button can carry.
use vstd::prelude::*;

verus! {

/// Whether a category or a list is about spending or about income.
#[derive(Clone, Copy, Debug, PartialEq, Eq, Structural)]
pub enum Direction {
    Unspecified,
    Expense,
    Income,
}

/// The property of a category that an edit flow changes.
#[derive(Clone, Copy, Debug, PartialEq, Eq, Structural)]
pub enum CategoryField {
    Unspecified,
    Name,
    Label,
    Direction,
    IsRegular,
    TargetAmount,
}

/// The list of categories of one direction.
#[derive(Clone, Copy, Debug, PartialEq, Eq, Structural)]
pub struct ShowCategoryList {
    pub direction: Direction,
}

/// The settings of one category; `navigated_from` is the list to go back to.
#[derive(Clone, Copy, Debug, PartialEq, Eq, Structural)]
pub struct ShowCategorySettings {
    pub category_id: i64,
    pub navigated_from: Option<ShowCategoryList>,
}

/// Starts the flow that creates a category of the given direction.
#[derive(Clone, Copy, Debug, PartialEq, Eq, Structural)]
pub struct CreateCategory {
    pub direction: Direction,
}

/// Starts the flow that changes one field of a category.
#[derive(Clone, Copy, Debug, PartialEq, Eq, Structural)]
pub struct UpdateCategory {
    pub category_id: i64,
    pub field: CategoryField,
}

#[derive(Clone, Copy, Debug, PartialEq, Eq, Structural)]
pub struct DeleteCategory {
    pub category_id: i64,
}

/// Asks which category a freshly logged transaction belongs to.
#[derive(Clone, Copy, Debug, PartialEq, Eq, Structural)]
pub struct CreateTransaction {
    pub transaction_id: i64,
    pub direction: Direction,
    pub is_short_mode: bool,
}

#[derive(Clone, Copy, Debug, PartialEq, Eq, Structural)]
pub struct ApproveTransactionCategory {
    pub transaction_id: i64,
    pub category_id: i64,
}

/// Every intent a button can trigger.
#[derive(Clone, Copy, Debug, PartialEq, Eq, Structural)]
pub enum Action {
    ShowSettings,
    ShowCategoryList(ShowCategoryList),
    ShowCategorySettings(ShowCategorySettings),
    CreateCategory(CreateCategory),
    UpdateCategory(UpdateCategory),
    DeleteCategory(DeleteCategory),
    CancelCreateCategory,
    CancelUpdateCategory,
    CreateTransaction(CreateTransaction),
    ApproveTransactionCategory(ApproveTransactionCategory),
}

pub open spec fn direction_number(d: Direction) -> u64 {
    match d {
        Direction::Unspecified => 0,
        Direction::Expense => 1,
        Direction::Income => 2,
    }
}

/// Unknown numbers read as `Unspecified`.
pub open spec fn direction_of(v: u64) -> Direction {
    if v == 1 {
        Direction::Expense
    } else if v == 2 {
        Direction::Income
    } else {
        Direction::Unspecified
    }
}

pub open spec fn opposite_direction(d: Direction) -> Direction {
    match d {
        Direction::Unspecified => Direction::Unspecified,
        Direction::Expense => Direction::Income,
        Direction::Income => Direction::Expense,
    }
}

pub open spec fn field_number(f: CategoryField) -> u64 {
    match f {
        CategoryField::Unspecified => 0,
        CategoryField::Name => 1,
        CategoryField::Label => 2,
        CategoryField::Direction => 3,
        CategoryField::IsRegular => 4,
        CategoryField::TargetAmount => 5,
    }
}

/// Unknown numbers read as `Unspecified`.
pub open spec fn field_of(v: u64) -> CategoryField {
    if v == 1 {
        CategoryField::Name
    } else if v == 2 {
        CategoryField::Label
    } else if v == 3 {
        CategoryField::Direction
    } else if v == 4 {
        CategoryField::IsRegular
    } else if v == 5 {
        CategoryField::TargetAmount
    } else {
        CategoryField::Unspecified
    }
}

impl Direction {
    pub fn number(&self) -> (r: u64)
        ensures
            r == direction_number(*self),
    {
        match self {
            Direction::Unspecified => 0,
            Direction::Expense => 1,
            Direction::Income => 2,
        }
    }

    pub fn from_number(v: u64) -> (r: Direction)
        ensures
            r == direction_of(v),
    {
        if v == 1 {
            Direction::Expense
        } else if v == 2 {
            Direction::Income
        } else {
            Direction::Unspecified
        }
    }

    /// The direction stored as `v` in a database row; negative numbers are unknown.
    pub fn from_stored(v: i32) -> (r: Direction)
        ensures
            r == if v < 0 {
                Direction::Unspecified
            } else {
                direction_of(v as u64)
            },
    {
        if v < 0 {
            Direction::Unspecified
        } else {
            Direction::from_number(v as u64)
        }
    }

    /// The other direction; `Unspecified` stays as it is.
    pub fn opposite(&self) -> (r: Direction)
        ensures
            r == opposite_direction(*self),
    {
        match self {
            Direction::Unspecified => Direction::Unspecified,
            Direction::Expense => Direction::Income,
            Direction::Income => Direction::Expense,
        }
    }
}

impl CategoryField {
    pub fn number(&self) -> (r: u64)
        ensures
            r == field_number(*self),
    {
        match self {
            CategoryField::Unspecified => 0,
            CategoryField::Name => 1,
            CategoryField::Label => 2,
            CategoryField::Direction => 3,
            CategoryField::IsRegular => 4,
            CategoryField::TargetAmount => 5,
        }
    }

    pub fn from_number(v: u64) -> (r: CategoryField)
        ensures
            r == field_of(v),
    {
        if v == 1 {
            CategoryField::Name
        } else if v == 2 {
            CategoryField::Label
        } else if v == 3 {
            CategoryField::Direction
        } else if v == 4 {
            CategoryField::IsRegular
        } else if v == 5 {
            CategoryField::TargetAmount
        } else {
            CategoryField::Unspecified
        }
    }
}

} // verus!
