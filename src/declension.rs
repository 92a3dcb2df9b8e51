//! Russian word forms of a category direction, for message texts.
use crate::action::Direction;
use vstd::prelude::*;

verus! {

#[derive(Clone, Copy, Debug, PartialEq, Eq, Structural)]
pub enum GrammaticalNumber {
    Singular,
    Plural,
}

#[derive(Clone, Copy, Debug, PartialEq, Eq, Structural)]
pub enum NameCase {
    Nominative,
    Genitive,
    Dative,
    Accusative,
    Creative,
    Prepositional,
}

pub open spec fn case_index(c: NameCase) -> usize {
    match c {
        NameCase::Nominative => 0,
        NameCase::Genitive => 1,
        NameCase::Dative => 2,
        NameCase::Accusative => 3,
        NameCase::Creative => 4,
        NameCase::Prepositional => 5,
    }
}

pub open spec fn number_index(n: GrammaticalNumber) -> usize {
    match n {
        GrammaticalNumber::Singular => 0,
        GrammaticalNumber::Plural => 1,
    }
}

impl NameCase {
    /// Position of the case in a declension table.
    pub fn as_index(&self) -> (r: usize)
        ensures
            r == case_index(*self),
            r < 6,
    {
        match self {
            NameCase::Nominative => 0,
            NameCase::Genitive => 1,
            NameCase::Dative => 2,
            NameCase::Accusative => 3,
            NameCase::Creative => 4,
            NameCase::Prepositional => 5,
        }
    }
}

impl GrammaticalNumber {
    /// Position of the number in a declension table.
    pub fn as_index(&self) -> (r: usize)
        ensures
            r == number_index(*self),
            r < 2,
    {
        match self {
            GrammaticalNumber::Singular => 0,
            GrammaticalNumber::Plural => 1,
        }
    }
}

/// Something named by a noun that declines.
pub trait Declinable {
    spec fn declinable(&self) -> bool;

    spec fn form(&self, case: NameCase, number: GrammaticalNumber) -> Seq<char>;

    fn decline(&self, case: NameCase, number: GrammaticalNumber) -> (r: &'static str)
        requires
            self.declinable(),
        ensures
            r@ == self.form(case, number),
    ;
}

/// Something shown with a one-character label.
pub trait Labeled {
    spec fn labeled(&self) -> bool;

    spec fn label_text(&self) -> Seq<char>;

    fn label(&self) -> (r: &'static str)
        requires
            self.labeled(),
        ensures
            r@ == self.label_text(),
    ;
}

/// The forms of «расход» (expense), by number and case.
pub open spec fn expense_form(case: usize, number: usize) -> Seq<char> {
    if number == 0 {
        if case == 0 { "расход"@ }
        else if case == 1 { "расхода"@ }
        else if case == 2 { "расходу"@ }
        else if case == 3 { "расход"@ }
        else if case == 4 { "расходом"@ }
        else { "расходе"@ }
    } else {
        if case == 0 { "расходы"@ }
        else if case == 1 { "расходов"@ }
        else if case == 2 { "расходам"@ }
        else if case == 3 { "расходы"@ }
        else if case == 4 { "расходами"@ }
        else { "расходах"@ }
    }
}

/// The forms of «доход» (income), by number and case.
pub open spec fn income_form(case: usize, number: usize) -> Seq<char> {
    if number == 0 {
        if case == 0 { "доход"@ }
        else if case == 1 { "дохода"@ }
        else if case == 2 { "доходу"@ }
        else if case == 3 { "доход"@ }
        else if case == 4 { "доходом"@ }
        else { "доходе"@ }
    } else {
        if case == 0 { "доходы"@ }
        else if case == 1 { "доходов"@ }
        else if case == 2 { "доходам"@ }
        else if case == 3 { "доходы"@ }
        else if case == 4 { "доходами"@ }
        else { "доходах"@ }
    }
}

fn expense_word(case: usize, number: usize) -> (r: &'static str)
    ensures
        r@ == expense_form(case, number),
{
    if number == 0 {
        if case == 0 { "расход" }
        else if case == 1 { "расхода" }
        else if case == 2 { "расходу" }
        else if case == 3 { "расход" }
        else if case == 4 { "расходом" }
        else { "расходе" }
    } else {
        if case == 0 { "расходы" }
        else if case == 1 { "расходов" }
        else if case == 2 { "расходам" }
        else if case == 3 { "расходы" }
        else if case == 4 { "расходами" }
        else { "расходах" }
    }
}

fn income_word(case: usize, number: usize) -> (r: &'static str)
    ensures
        r@ == income_form(case, number),
{
    if number == 0 {
        if case == 0 { "доход" }
        else if case == 1 { "дохода" }
        else if case == 2 { "доходу" }
        else if case == 3 { "доход" }
        else if case == 4 { "доходом" }
        else { "доходе" }
    } else {
        if case == 0 { "доходы" }
        else if case == 1 { "доходов" }
        else if case == 2 { "доходам" }
        else if case == 3 { "доходы" }
        else if case == 4 { "доходами" }
        else { "доходах" }
    }
}

impl Declinable for Direction {
    open spec fn declinable(&self) -> bool {
        *self != Direction::Unspecified
    }

    open spec fn form(&self, case: NameCase, number: GrammaticalNumber) -> Seq<char> {
        if *self == Direction::Expense {
            expense_form(case_index(case), number_index(number))
        } else {
            income_form(case_index(case), number_index(number))
        }
    }

    fn decline(&self, case: NameCase, number: GrammaticalNumber) -> (r: &'static str) {
        match self {
            Direction::Expense => expense_word(case.as_index(), number.as_index()),
            _ => income_word(case.as_index(), number.as_index()),
        }
    }
}

impl Labeled for Direction {
    open spec fn labeled(&self) -> bool {
        *self != Direction::Unspecified
    }

    open spec fn label_text(&self) -> Seq<char> {
        if *self == Direction::Expense {
            "📉"@
        } else {
            "📈"@
        }
    }

    fn label(&self) -> (r: &'static str) {
        match self {
            Direction::Expense => "📉",
            _ => "📈",
        }
    }
}

} // verus!
