use vstd::prelude::*;
use vstd::string::*;

use crate::common::account::position::{Position, PositionView};
use crate::common::misc::return_flags::ReturnFlags;
use crate::server::db::statement::{SqlValue, SqlValueView, Statement, StatementView};

verus! {

/// The statement that inserts one position.
pub const CREATE_POSITION_SQL: &'static str =
    "INSERT INTO portfolio_schema.positions \
     (user_id, stock_symbol, stock_open_amount, stock_open_price, stock_open_cost, \
     stock_close_amount, stock_close_price, open_epoch, close_epoch, is_buy, is_open) \
     VALUES ($1, $2, $3, $4, $5, $6, $7, $8, $9, $10, $11)";

/// The insertion of `position` for the user `user_id`: the fixed text, the
/// user first and then the fields of the position in the order of the columns.
pub open spec fn spec_create_position(user_id: i64, position: PositionView) -> StatementView {
    StatementView {
        text: CREATE_POSITION_SQL@,
        params: seq![
            SqlValueView::BigInt(user_id),
            SqlValueView::Text(position.stock_symbol),
            SqlValueView::BigInt(position.stock_open_amount),
            SqlValueView::BigInt(position.stock_open_price),
            SqlValueView::BigInt(position.stock_open_cost),
            SqlValueView::BigInt(position.stock_close_amount),
            SqlValueView::BigInt(position.stock_close_price),
            SqlValueView::BigInt(position.open_epoch),
            SqlValueView::BigInt(position.close_epoch),
            SqlValueView::Bool(position.is_buy),
            SqlValueView::Bool(position.is_open),
        ],
    }
}

/// Creates a position in the store.
///
/// Takes the user to create the position for and the position, and gives the
/// statement that inserts it. The caller runs the statement and hands what
/// came of it to `create_position_done`.
pub fn create_position(user_id: i64, position: Position) -> (statement: Statement)
    ensures
        statement@ == spec_create_position(user_id, position@),
{
    let mut params: Vec<SqlValue> = Vec::new();
    params.push(SqlValue::BigInt(user_id));
    params.push(SqlValue::Text(position.stock_symbol));
    params.push(SqlValue::BigInt(position.stock_open_amount));
    params.push(SqlValue::BigInt(position.stock_open_price));
    params.push(SqlValue::BigInt(position.stock_open_cost));
    params.push(SqlValue::BigInt(position.stock_close_amount));
    params.push(SqlValue::BigInt(position.stock_close_price));
    params.push(SqlValue::BigInt(position.open_epoch));
    params.push(SqlValue::BigInt(position.close_epoch));
    params.push(SqlValue::Bool(position.is_buy));
    params.push(SqlValue::Bool(position.is_open));
    let statement = Statement { text: String::from_str(CREATE_POSITION_SQL), params };
    assert(statement@.params =~= spec_create_position(user_id, position@).params);
    statement
}

/// What the creation of a position came to, given whether the store took the
/// insertion.
pub fn create_position_done(inserted: bool) -> (r: Result<(), ReturnFlags>)
    ensures
        inserted ==> r is Ok,
        !inserted ==> r == Err::<(), ReturnFlags>(ReturnFlags::ServerDbCreatePositionFailed),
{
    if inserted {
        Ok(())
    } else {
        Err(ReturnFlags::ServerDbCreatePositionFailed)
    }
}

} // verus!
