use vstd::prelude::*;

verus! {

/// A value bound to a placeholder of a statement.
#[derive(Clone, Debug, PartialEq, Eq)]
pub enum SqlValue {
    BigInt(i64),
    Text(String),
    Bool(bool),
}

/// What a bound value is, with text as a sequence of characters.
pub enum SqlValueView {
    BigInt(i64),
    Text(Seq<char>),
    Bool(bool),
}

impl View for SqlValue {
    type V = SqlValueView;

    open spec fn view(&self) -> SqlValueView {
        match self {
            SqlValue::BigInt(n) => SqlValueView::BigInt(*n),
            SqlValue::Text(s) => SqlValueView::Text(s@),
            SqlValue::Bool(b) => SqlValueView::Bool(*b),
        }
    }
}

/// A statement for the store: its text, and the values for its placeholders
/// `$1`, `$2` and so on, in that order. The caller runs it.
#[derive(Clone, Debug, PartialEq, Eq)]
pub struct Statement {
    pub text: String,
    pub params: Vec<SqlValue>,
}

/// What a statement is: its text and its bound values.
pub struct StatementView {
    pub text: Seq<char>,
    pub params: Seq<SqlValueView>,
}

impl View for Statement {
    type V = StatementView;

    open spec fn view(&self) -> StatementView {
        StatementView {
            text: self.text@,
            params: Seq::new(self.params@.len(), |i: int| self.params@[i]@),
        }
    }
}

} // verus!
