use vstd::prelude::*;

verus! {

/// The host of the store.
pub const DB_HOST: &'static str = "localhost";

/// The port on which the store listens.
pub const DB_HOST_PORT: &'static str = "5432";

/// The name of the database.
pub const DB_NAME: &'static str = "pt_db";

} // verus!
