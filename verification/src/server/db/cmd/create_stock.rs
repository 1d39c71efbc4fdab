use vstd::prelude::*;
use vstd::string::*;

use crate::server::db::statement::{SqlValue, Statement, StatementView};

verus! {

/// What stands before the name of the stock in the statement that creates its
/// table.
pub const CREATE_STOCK_HEAD: &'static str = "CREATE TABLE asset_schema.";

/// What stands behind the name of the stock: the columns of the table.
pub const CREATE_STOCK_COLUMNS: &'static str =
    " ( \
     id                  BIGSERIAL PRIMARY KEY, \
     isin                TEXT NOT NULL, \
     time_epoch          BIGINT NOT NULL, \
     ask_price           BIGINT NOT NULL, \
     bid_price           BIGINT NOT NULL, \
     volume              BIGINT NOT NULL \
     )";

/// What a failure to create the table is reported with, before the store's
/// own words.
pub const CREATE_STOCK_FAILED: &'static str = "DB_FAILED_TO_CREATE_STOCK_TABLE: ";

/// The statement that creates the table of a stock: the name is written into
/// the text as it is, and nothing is bound.
pub open spec fn spec_create_stock(stock_name: Seq<char>) -> StatementView {
    StatementView {
        text: CREATE_STOCK_HEAD@ + stock_name + CREATE_STOCK_COLUMNS@,
        params: Seq::empty(),
    }
}

/// Creates a stock table in the assets schema.
///
/// Gives the statement that creates the table named after the stock. The
/// caller runs the statement and hands what came of it to
/// `create_stock_done`.
pub fn create_stock(stock_name: &str) -> (statement: Statement)
    ensures
        statement@ == spec_create_stock(stock_name@),
{
    let text = String::from_str(CREATE_STOCK_HEAD).concat(stock_name).concat(CREATE_STOCK_COLUMNS);
    let params: Vec<SqlValue> = Vec::new();
    let statement = Statement { text, params };
    assert(statement@.params =~= Seq::empty());
    statement
}

/// What the creation of a stock table came to, given what the store said:
/// success stays success, and a failure carries the store's words behind
/// `DB_FAILED_TO_CREATE_STOCK_TABLE: `.
pub fn create_stock_done(created: Result<(), String>) -> (r: Result<(), String>)
    ensures
        match created {
            Ok(_) => r is Ok,
            Err(err) => r is Err && r->Err_0@ == CREATE_STOCK_FAILED@ + err@,
        },
{
    match created {
        Ok(()) => Ok(()),
        Err(err) => Err(String::from_str(CREATE_STOCK_FAILED).concat(err.as_str())),
    }
}

} // verus!
