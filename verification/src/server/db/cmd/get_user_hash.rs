use vstd::prelude::*;
use vstd::string::*;

use crate::common::misc::return_flags::ReturnFlags;
use crate::server::db::statement::{SqlValue, SqlValueView, Statement, StatementView};

verus! {

/// The statement that selects the email hash of the accounts whose user name
/// is exactly the one bound.
pub const GET_EMAIL_HASH_SQL: &'static str =
    "SELECT username, email_hash FROM accounts_schema.accounts WHERE username = $1";

/// The statement that selects the password hash of the accounts whose user
/// name is exactly the one bound.
pub const GET_PASS_HASH_SQL: &'static str =
    "SELECT username, pass_hash FROM accounts_schema.accounts WHERE username = $1";

/// The search for the stored hash of a user: of the email address, or of the
/// password.
pub open spec fn spec_get_user_hash(username: Seq<char>, is_email: bool) -> StatementView {
    StatementView {
        text: if is_email {
            GET_EMAIL_HASH_SQL@
        } else {
            GET_PASS_HASH_SQL@
        },
        params: seq![SqlValueView::Text(username)],
    }
}

/// Looks up the stored hash of a user.
///
/// Takes the user name, which of the two hashes is wanted, and whether the
/// user exists. For a user that does not exist nothing is searched and the
/// hash is reported as not found. Otherwise the statement that selects the
/// hash is given; the caller runs it and hands the hashes of the rows, in
/// order, to `get_user_hash_done`.
pub fn get_user_hash(username: &str, is_email: bool, user_exists: bool) -> (r: Result<
    Statement,
    ReturnFlags,
>)
    ensures
        user_exists ==> r is Ok && r->Ok_0@ == spec_get_user_hash(username@, is_email),
        !user_exists ==> r == Err::<Statement, ReturnFlags>(ReturnFlags::ServerDbUserHashNotFound),
{
    if !user_exists {
        return Err(ReturnFlags::ServerDbUserHashNotFound);
    }
    let mut params: Vec<SqlValue> = Vec::new();
    params.push(SqlValue::Text(String::from_str(username)));
    let text = if is_email {
        String::from_str(GET_EMAIL_HASH_SQL)
    } else {
        String::from_str(GET_PASS_HASH_SQL)
    };
    let statement = Statement { text, params };
    assert(statement@.params =~= spec_get_user_hash(username@, is_email).params);
    Ok(statement)
}

/// The stored hash of a user, given the hashes that the search found: the
/// first of them, and `ServerDbUserHashNotFound` where there is none.
pub fn get_user_hash_done(hashes: Vec<String>) -> (r: Result<String, ReturnFlags>)
    ensures
        hashes@.len() > 0 ==> r == Ok::<String, ReturnFlags>(hashes@[0]),
        hashes@.len() == 0 ==> r == Err::<String, ReturnFlags>(
            ReturnFlags::ServerDbUserHashNotFound,
        ),
{
    let mut hashes = hashes;
    if hashes.len() == 0 {
        Err(ReturnFlags::ServerDbUserHashNotFound)
    } else {
        Ok(hashes.swap_remove(0))
    }
}

} // verus!
