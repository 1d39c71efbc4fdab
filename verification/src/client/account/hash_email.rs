use vstd::prelude::*;

use crate::common::account::hash::{
    full_salt, gen_half_salt, hash_round, spec_hash_round, HALF_SALT_LEN,
};
use crate::common::misc::return_flags::ReturnFlags;

verus! {

/// The rounds of the key derivation that a client spends on an email address.
pub const CLIENT_EMAIL_ITERATIONS: u32 = 175_000;

/// The client's hash of an email address under the two halves of its salt, and the
/// full salt, the server's half first.
pub open spec fn spec_hash_email(email: Seq<u8>, server_salt: Seq<u8>, client_salt: Seq<u8>) -> (
    Seq<u8>,
    Seq<u8>,
) {
    spec_hash_round(email, server_salt + client_salt, CLIENT_EMAIL_ITERATIONS)
}

/// Hashes a raw email address under the server's half salt and a client half that
/// is already drawn.
pub fn hash_email_with(email: &[u8], server_salt: [u8; 32], client_salt: [u8; 32]) -> (r: (
    [u8; 64],
    [u8; 64],
))
    ensures
        (r.0@, r.1@) == spec_hash_email(email@, server_salt@, client_salt@),
{
    let salt = full_salt(&server_salt, &client_salt);
    hash_round(email, salt, CLIENT_EMAIL_ITERATIONS)
}

/// Generates a client email hash from a raw email address.
///
/// Draws the client's half of the salt, joins it to the server's half and
/// hashes the address under the result. Returns the hash and the full salt.
/// The hash is what is sent to the server, which hashes it once more before
/// it stores anything. Two calls on the same address and server half draw
/// their client halves independently.
pub fn hash_email(email: &Vec<u8>, server_salt: [u8; 32]) -> (r: Result<
    ([u8; 64], [u8; 64]),
    ReturnFlags,
>)
    ensures
        match r {
            Ok((hash, salt)) => (hash@, salt@) == spec_hash_email(
                email@,
                server_salt@,
                salt@.subrange(HALF_SALT_LEN as int, salt@.len() as int),
            ),
            Err(e) => e == ReturnFlags::CommonGenSaltFailed,
        },
{
    match gen_half_salt() {
        Ok(client_salt) => {
            let r = hash_email_with(email.as_slice(), server_salt, client_salt);
            proof {
                assert(r.1@.subrange(32, 64) == client_salt@);
            }
            Ok(r)
        },
        Err(e) => Err(e),
    }
}

} // verus!
