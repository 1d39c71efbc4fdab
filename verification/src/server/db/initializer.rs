use vstd::prelude::*;
use vstd::string::*;

use crate::server::db::config::{DB_HOST, DB_HOST_PORT, DB_NAME};
use crate::server::db::statement::{SqlValue, Statement, StatementView};

verus! {

/// The parameters of a connection to the store, as one line of `key=value`
/// pairs: the configured host, port and database, then the user and the
/// password as given.
pub open spec fn spec_db_connect(user: Seq<char>, pass: Seq<char>) -> Seq<char> {
    "host="@ + DB_HOST@ + " port="@ + DB_HOST_PORT@ + " dbname="@ + DB_NAME@ + " user="@ + user
        + " password="@ + pass
}

/// Prepares a connection to the store.
///
/// Takes the name and the password of the user to connect with and gives the
/// string with which the caller opens the connection.
pub fn db_connect(user: &str, pass: &str) -> (db_connect_str: String)
    ensures
        db_connect_str@ == spec_db_connect(user@, pass@),
{
    String::from_str("host=").concat(DB_HOST).concat(" port=").concat(DB_HOST_PORT).concat(
        " dbname=",
    ).concat(DB_NAME).concat(" user=").concat(user).concat(" password=").concat(pass)
}

/// The statement that reads the companies of the store.
pub const DB_INIT_SQL: &'static str = "SELECT * FROM public.companies";

/// Prepares the reading of the companies that the library starts with: gives
/// the statement to run. The caller hands the companies of the rows to
/// `libtrader_init`.
pub fn db_init() -> (statement: Statement)
    ensures
        statement@ == (StatementView { text: DB_INIT_SQL@, params: Seq::empty() }),
{
    let params: Vec<SqlValue> = Vec::new();
    let statement = Statement { text: String::from_str(DB_INIT_SQL), params };
    assert(statement@.params =~= Seq::empty());
    statement
}

} // verus!
