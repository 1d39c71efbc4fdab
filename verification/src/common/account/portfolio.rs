use vstd::prelude::*;

use crate::common::account::position::{Position, PositionView};

verus! {

/// The positions of one account: those that were closed, and those still open.
#[derive(Clone, Debug, PartialEq, Eq)]
pub struct Portfolio {
    pub position_history: Vec<Position>,
    pub open_positions: Vec<Position>,
}

/// What a portfolio is: its two lists of positions.
pub struct PortfolioView {
    pub position_history: Seq<PositionView>,
    pub open_positions: Seq<PositionView>,
}

impl View for Portfolio {
    type V = PortfolioView;

    open spec fn view(&self) -> PortfolioView {
        PortfolioView {
            position_history: Seq::new(
                self.position_history@.len(),
                |i: int| self.position_history@[i]@,
            ),
            open_positions: Seq::new(
                self.open_positions@.len(),
                |i: int| self.open_positions@[i]@,
            ),
        }
    }
}

impl Default for Portfolio {
    /// The portfolio of a new account: no position was ever held.
    fn default() -> (p: Portfolio)
        ensures
            p@.position_history.len() == 0,
            p@.open_positions.len() == 0,
    {
        Portfolio { position_history: Vec::new(), open_positions: Vec::new() }
    }
}

} // verus!
