use vstd::prelude::*;

use crate::common::generic::company::Company;

verus! {

/// What the library knows once it is initialized: the companies of the store.
#[derive(Clone, Debug, PartialEq, Eq)]
pub struct GlobalState {
    pub companies: Vec<Company>,
}

impl Default for GlobalState {
    /// The state before the store was read: no company is known.
    fn default() -> (state: GlobalState)
        ensures
            state.companies@.len() == 0,
    {
        GlobalState { companies: Vec::new() }
    }
}

} // verus!
