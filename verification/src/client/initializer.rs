use vstd::prelude::*;
use vstd::string::*;

use crate::common::generic::company::Company;
use crate::common::generic::global_state::GlobalState;

verus! {

/// What a failure to read the store is reported with, before the store's own
/// words.
pub const INIT_DB_FAILED: &'static str = "INIT_DB_FAILED: ";

/// Generic initialization of the library.
///
/// Takes what reading the companies from the store came to. Gives the state
/// that holds exactly those companies, or the store's reason of failure
/// behind `INIT_DB_FAILED: `.
pub fn libtrader_init(db: Result<Vec<Company>, String>) -> (r: Result<GlobalState, String>)
    ensures
        match db {
            Ok(companies) => r is Ok && r->Ok_0.companies == companies,
            Err(err) => r is Err && r->Err_0@ == INIT_DB_FAILED@ + err@,
        },
{
    match db {
        Ok(companies) => {
            let mut state = GlobalState::default();
            state.companies = companies;
            Ok(state)
        },
        Err(err) => Err(String::from_str(INIT_DB_FAILED).concat(err.as_str())),
    }
}

} // verus!
