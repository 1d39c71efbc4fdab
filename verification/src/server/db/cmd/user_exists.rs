use vstd::prelude::*;
use vstd::string::*;

use crate::server::db::statement::{SqlValue, SqlValueView, Statement, StatementView};

verus! {

/// The statement that selects the accounts whose user name is exactly the
/// one bound.
pub const USER_EXISTS_SQL: &'static str =
    "SELECT username FROM accounts_schema.accounts WHERE username = $1";

/// The search for the accounts named `username`.
pub open spec fn spec_user_exists(username: Seq<char>) -> StatementView {
    StatementView { text: USER_EXISTS_SQL@, params: seq![SqlValueView::Text(username)] }
}

/// Gives the statement that searches the store for accounts with a user
/// name. The caller runs it and hands the number of rows to
/// `user_exists_done`.
pub fn user_exists(username: &str) -> (statement: Statement)
    ensures
        statement@ == spec_user_exists(username@),
{
    let mut params: Vec<SqlValue> = Vec::new();
    params.push(SqlValue::Text(String::from_str(username)));
    let statement = Statement { text: String::from_str(USER_EXISTS_SQL), params };
    assert(statement@.params =~= spec_user_exists(username@).params);
    statement
}

/// Whether the user exists, given the number of rows that the search found.
pub fn user_exists_done(rows: usize) -> (exists: bool)
    ensures
        exists == (rows > 0),
{
    rows > 0
}

} // verus!
