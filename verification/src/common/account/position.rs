use vstd::prelude::*;

verus! {

/// A position in one stock, open or closed. Amounts, prices and times are
/// carried as they are stored.
#[derive(Clone, Debug, PartialEq, Eq)]
pub struct Position {
    pub stock_symbol: String,
    pub stock_open_amount: i64,
    pub stock_open_price: i64,
    pub stock_open_cost: i64,
    pub stock_close_amount: i64,
    pub stock_close_price: i64,
    pub open_epoch: i64,
    pub close_epoch: i64,
    pub is_buy: bool,
    pub is_open: bool,
}

/// What a position is, with its symbol as a sequence of characters.
pub struct PositionView {
    pub stock_symbol: Seq<char>,
    pub stock_open_amount: i64,
    pub stock_open_price: i64,
    pub stock_open_cost: i64,
    pub stock_close_amount: i64,
    pub stock_close_price: i64,
    pub open_epoch: i64,
    pub close_epoch: i64,
    pub is_buy: bool,
    pub is_open: bool,
}

impl View for Position {
    type V = PositionView;

    open spec fn view(&self) -> PositionView {
        PositionView {
            stock_symbol: self.stock_symbol@,
            stock_open_amount: self.stock_open_amount,
            stock_open_price: self.stock_open_price,
            stock_open_cost: self.stock_open_cost,
            stock_close_amount: self.stock_close_amount,
            stock_close_price: self.stock_close_price,
            open_epoch: self.open_epoch,
            close_epoch: self.close_epoch,
            is_buy: self.is_buy,
            is_open: self.is_open,
        }
    }
}

impl Default for Position {
    /// A position in no stock, with every number zero and both flags unset.
    fn default() -> (p: Position)
        ensures
            p@ == (PositionView {
                stock_symbol: Seq::<char>::empty(),
                stock_open_amount: 0,
                stock_open_price: 0,
                stock_open_cost: 0,
                stock_close_amount: 0,
                stock_close_price: 0,
                open_epoch: 0,
                close_epoch: 0,
                is_buy: false,
                is_open: false,
            }),
    {
        Position {
            stock_symbol: String::new(),
            stock_open_amount: 0,
            stock_open_price: 0,
            stock_open_cost: 0,
            stock_close_amount: 0,
            stock_close_price: 0,
            open_epoch: 0,
            close_epoch: 0,
            is_buy: false,
            is_open: false,
        }
    }
}

} // verus!
