use vstd::prelude::*;

use crate::common::account::hash::{gen_salt, hash_round, spec_hash_round};
use crate::common::misc::return_flags::ReturnFlags;

verus! {

/// The rounds of the key derivation that the server spends on what a client
/// sent in place of an email address.
pub const SERVER_EMAIL_ITERATIONS: u32 = 500_000;

/// The hash that is stored for a client's email hash under a salt, and the
/// salt.
pub open spec fn spec_hash_email(hashed_email: Seq<u8>, salt: Seq<u8>) -> (Seq<u8>, Seq<u8>) {
    spec_hash_round(hashed_email, salt, SERVER_EMAIL_ITERATIONS)
}

/// Hashes a client's email hash under a salt that is already drawn.
pub fn hash_email_with(hashed_email: &[u8], salt: [u8; 64]) -> (r: ([u8; 64], [u8; 64]))
    ensures
        (r.0@, r.1@) == spec_hash_email(hashed_email@, salt@),
{
    hash_round(hashed_email, salt, SERVER_EMAIL_ITERATIONS)
}

/// Generates a storable server email hash from a client hashed email address.
///
/// Takes what the client sent as the secret, draws an entirely new salt and
/// hashes once more. Returns the final hash and its salt: only these are
/// stored.
pub fn hash_email(hashed_email: &Vec<u8>) -> (r: Result<([u8; 64], [u8; 64]), ReturnFlags>)
    ensures
        match r {
            Ok((hash, salt)) => (hash@, salt@) == spec_hash_email(hashed_email@, salt@),
            Err(e) => e == ReturnFlags::CommonGenSaltFailed,
        },
{
    match gen_salt() {
        Ok(salt) => Ok(hash_email_with(hashed_email.as_slice(), salt)),
        Err(e) => Err(e),
    }
}

} // verus!
