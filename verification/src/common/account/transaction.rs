use vstd::prelude::*;

verus! {

/// One purchase or sale of shares.
#[derive(Clone, Debug, PartialEq, Eq)]
pub struct Transaction {
    pub stock_symbol: String,
    pub shares_size: i64,
    pub shares_cost: i64,
    pub is_buy: bool,
}

} // verus!
