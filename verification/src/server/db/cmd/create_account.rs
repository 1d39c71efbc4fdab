use vstd::prelude::*;
use vstd::string::*;

use crate::server::db::statement::{SqlValue, SqlValueView, Statement, StatementView};
use crate::server::ds::account::{Account, AccountView};

verus! {

/// The statement that inserts one account.
pub const CREATE_ACCOUNT_SQL: &'static str =
    "INSERT INTO accounts_schema.accounts \
     (username, email_hash, server_email_salt, client_email_salt, pass_hash, server_pass_salt, client_pass_salt) \
     VALUES ($1, $2, $3, $4, $5, $6, $7)";

/// The insertion of an account: the fixed text and, in the order of the
/// columns, the user name, the email hash with its two salts and the
/// password hash with its two salts.
pub open spec fn spec_create_account(account: AccountView) -> StatementView {
    StatementView {
        text: CREATE_ACCOUNT_SQL@,
        params: seq![
            SqlValueView::Text(account.username),
            SqlValueView::Text(account.email_hash),
            SqlValueView::Text(account.server_email_salt),
            SqlValueView::Text(account.client_email_salt),
            SqlValueView::Text(account.pass_hash),
            SqlValueView::Text(account.server_pass_salt),
            SqlValueView::Text(account.client_pass_salt),
        ],
    }
}

/// Gives the statement that writes a new account to the store.
pub fn create_account(account: &Account) -> (statement: Statement)
    ensures
        statement@ == spec_create_account(account@),
{
    let mut params: Vec<SqlValue> = Vec::new();
    params.push(SqlValue::Text(account.username.clone()));
    params.push(SqlValue::Text(account.email_hash.clone()));
    params.push(SqlValue::Text(account.server_email_salt.clone()));
    params.push(SqlValue::Text(account.client_email_salt.clone()));
    params.push(SqlValue::Text(account.pass_hash.clone()));
    params.push(SqlValue::Text(account.server_pass_salt.clone()));
    params.push(SqlValue::Text(account.client_pass_salt.clone()));
    let statement = Statement { text: String::from_str(CREATE_ACCOUNT_SQL), params };
    assert(statement@.params =~= spec_create_account(account@).params);
    statement
}

} // verus!
