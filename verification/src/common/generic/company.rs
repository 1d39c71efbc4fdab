use vstd::prelude::*;

verus! {

/// A listed company, as the store describes it.
#[derive(Clone, Debug, PartialEq, Eq)]
pub struct Company {
    pub id: i64,
    pub symbol: String,
    pub isin: String,
    pub company_name: String,
    pub primary_exchange: String,
    pub sector: String,
    pub industry: String,
    pub primary_sic_code: String,
    pub employees: i64,
}

impl Default for Company {
    /// A company of which nothing is known yet.
    fn default() -> (c: Company)
        ensures
            c.id == 0,
            c.employees == 0,
            c.symbol@.len() == 0,
            c.isin@.len() == 0,
            c.company_name@.len() == 0,
            c.primary_exchange@.len() == 0,
            c.sector@.len() == 0,
            c.industry@.len() == 0,
            c.primary_sic_code@.len() == 0,
    {
        Company {
            id: 0,
            symbol: String::new(),
            isin: String::new(),
            company_name: String::new(),
            primary_exchange: String::new(),
            sector: String::new(),
            industry: String::new(),
            primary_sic_code: String::new(),
            employees: 0,
        }
    }
}

} // verus!
