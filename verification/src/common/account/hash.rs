use std::num::NonZeroU32;

use ring::pbkdf2;
use ring::rand::{SecureRandom, SystemRandom};
use vstd::prelude::*;

use crate::common::misc::return_flags::ReturnFlags;

verus! {

/// The error of `ring`, which says nothing of its cause; it is only passed
/// on.
#[verifier::external_type_specification]
#[verifier::external_body]
pub struct ExUnspecified(ring::error::Unspecified);

/// The length of a hash, and of the full salt that goes into one.
pub const HASH_OUTPUT_LEN: usize = 64;

/// The length of the half of a salt that one side contributes.
pub const HALF_SALT_LEN: usize = 32;

/// The key of 64 bytes that PBKDF2 with HMAC-SHA512 derives from a secret
/// under a salt in a number of iterations.
pub uninterp spec fn pbkdf2_hmac_sha512(iterations: u32, salt: Seq<u8>, secret: Seq<u8>) -> Seq<u8>;

/// Calls `ring::pbkdf2::derive` with `PBKDF2_HMAC_SHA512` on an output buffer
/// of 64 bytes. The contract claims that the derived key depends on the
/// iteration count, the salt and the secret alone, and gives it its name.
#[verifier::external_body]
pub(crate) fn hash(val: &[u8], salt: &[u8], iter: u32) -> (out: [u8; 64])
    requires
        iter > 0,
    ensures
        out@ == pbkdf2_hmac_sha512(iter, salt@, val@),
{
    let mut out = [0u8; 64];
    pbkdf2::derive(pbkdf2::PBKDF2_HMAC_SHA512, NonZeroU32::new(iter).unwrap(), salt, val, &mut out);
    out
}

/// Calls `fill` of `ring::rand::SystemRandom` on a fresh buffer of `len`
/// bytes. Nothing is claimed of the bytes but their number.
#[verifier::external_body]
pub(crate) fn random_bytes(len: usize) -> (r: Result<Vec<u8>, ring::error::Unspecified>)
    ensures
        r matches Ok(bytes) ==> bytes@.len() == len,
{
    let mut bytes = vec![0u8; len];
    match SystemRandom::new().fill(&mut bytes) {
        Ok(()) => Ok(bytes),
        Err(e) => Err(e),
    }
}

/// The half salt that holds the given bytes, if they are as many as a half
/// salt has.
pub fn to_half_salt(bytes: &Vec<u8>) -> (r: Option<[u8; 32]>)
    ensures
        bytes@.len() == HALF_SALT_LEN ==> r is Some && r->0@ == bytes@,
        bytes@.len() != HALF_SALT_LEN ==> r is None,
{
    if bytes.len() != HALF_SALT_LEN {
        return None;
    }
    let mut salt = [0u8; 32];
    let mut i: usize = 0;
    while i < 32
        invariant
            i <= 32,
            bytes@.len() == 32,
            forall|j: int| 0 <= j < i ==> salt@[j] == bytes@[j],
        decreases 32 - i,
    {
        salt[i] = bytes[i];
        i += 1;
    }
    assert(salt@ =~= bytes@);
    Some(salt)
}

/// The hash or full salt that holds the given bytes, if they are as many as
/// a hash has.
pub fn to_hash(bytes: &Vec<u8>) -> (r: Option<[u8; 64]>)
    ensures
        bytes@.len() == HASH_OUTPUT_LEN ==> r is Some && r->0@ == bytes@,
        bytes@.len() != HASH_OUTPUT_LEN ==> r is None,
{
    if bytes.len() != HASH_OUTPUT_LEN {
        return None;
    }
    let mut hash = [0u8; 64];
    let mut i: usize = 0;
    while i < 64
        invariant
            i <= 64,
            bytes@.len() == 64,
            forall|j: int| 0 <= j < i ==> hash@[j] == bytes@[j],
        decreases 64 - i,
    {
        hash[i] = bytes[i];
        i += 1;
    }
    assert(hash@ =~= bytes@);
    Some(hash)
}

/// The half salt that was drawn, if one was and it is as long as a half salt.
pub fn half_salt_from(drawn: Result<Vec<u8>, ring::error::Unspecified>) -> (r: Result<
    [u8; 32],
    ReturnFlags,
>)
    ensures
        match drawn {
            Ok(bytes) if bytes@.len() == HALF_SALT_LEN => r is Ok && r->Ok_0@ == bytes@,
            _ => r == Err::<[u8; 32], ReturnFlags>(ReturnFlags::CommonGenSaltFailed),
        },
{
    match drawn {
        Ok(bytes) => match to_half_salt(&bytes) {
            Some(salt) => Ok(salt),
            None => Err(ReturnFlags::CommonGenSaltFailed),
        },
        Err(_) => Err(ReturnFlags::CommonGenSaltFailed),
    }
}

/// The full salt that was drawn, if one was and it is as long as a hash.
pub fn salt_from(drawn: Result<Vec<u8>, ring::error::Unspecified>) -> (r: Result<
    [u8; 64],
    ReturnFlags,
>)
    ensures
        match drawn {
            Ok(bytes) if bytes@.len() == HASH_OUTPUT_LEN => r is Ok && r->Ok_0@ == bytes@,
            _ => r == Err::<[u8; 64], ReturnFlags>(ReturnFlags::CommonGenSaltFailed),
        },
{
    match drawn {
        Ok(bytes) => match to_hash(&bytes) {
            Some(salt) => Ok(salt),
            None => Err(ReturnFlags::CommonGenSaltFailed),
        },
        Err(_) => Err(ReturnFlags::CommonGenSaltFailed),
    }
}

/// Draws the half of a salt that one side contributes.
///
/// Every half salt that comes out is half as long as a hash.
pub fn gen_half_salt() -> (r: Result<[u8; 32], ReturnFlags>)
    ensures
        match r {
            Ok(salt) => salt@.len() == HALF_SALT_LEN && salt@.len() == HASH_OUTPUT_LEN / 2,
            Err(e) => e == ReturnFlags::CommonGenSaltFailed,
        },
{
    half_salt_from(random_bytes(HALF_SALT_LEN))
}

/// Draws a full salt.
///
/// Every salt that comes out is as long as a hash.
pub fn gen_salt() -> (r: Result<[u8; 64], ReturnFlags>)
    ensures
        match r {
            Ok(salt) => salt@.len() == HASH_OUTPUT_LEN,
            Err(e) => e == ReturnFlags::CommonGenSaltFailed,
        },
{
    salt_from(random_bytes(HASH_OUTPUT_LEN))
}

/// Joins the two halves of a salt, the server's half first.
pub fn full_salt(server_salt: &[u8; 32], client_salt: &[u8; 32]) -> (salt: [u8; 64])
    ensures
        salt@ == server_salt@ + client_salt@,
        salt@.len() == HASH_OUTPUT_LEN,
        server_salt@.len() == HALF_SALT_LEN,
        client_salt@.len() == HALF_SALT_LEN,
{
    let mut salt = [0u8; 64];
    let mut i: usize = 0;
    while i < 32
        invariant
            i <= 32,
            forall|j: int| 0 <= j < i ==> salt@[j] == server_salt@[j],
            forall|j: int| 0 <= j < i ==> salt@[32 + j] == client_salt@[j],
        decreases 32 - i,
    {
        salt[i] = server_salt[i];
        salt[32 + i] = client_salt[i];
        i += 1;
    }
    assert(salt@ =~= server_salt@ + client_salt@);
    salt
}

/// The client's half of a full salt.
pub fn client_half(salt: &[u8; 64]) -> (client_salt: [u8; 32])
    ensures
        client_salt@ == salt@.subrange(HALF_SALT_LEN as int, HASH_OUTPUT_LEN as int),
{
    let mut client_salt = [0u8; 32];
    let mut i: usize = 0;
    while i < 32
        invariant
            i <= 32,
            forall|j: int| 0 <= j < i ==> client_salt@[j] == salt@[32 + j],
        decreases 32 - i,
    {
        client_salt[i] = salt[32 + i];
        i += 1;
    }
    assert(client_salt@ =~= salt@.subrange(32, 64));
    client_salt
}

/// One round of the hash chain: the hash of `secret` under `salt`, and the salt.
pub open spec fn spec_hash_round(secret: Seq<u8>, salt: Seq<u8>, iterations: u32) -> (
    Seq<u8>,
    Seq<u8>,
) {
    (pbkdf2_hmac_sha512(iterations, salt, secret), salt)
}

/// Runs one round of the hash chain under a salt that is already drawn.
pub fn hash_round(secret: &[u8], salt: [u8; 64], iterations: u32) -> (r: ([u8; 64], [u8; 64]))
    requires
        iterations > 0,
    ensures
        (r.0@, r.1@) == spec_hash_round(secret@, salt@, iterations),
{
    let hashed = hash(secret, salt.as_slice(), iterations);
    (hashed, salt)
}

/// Two rounds on one secret and one server half that draw different client
/// halves give different results: the salts that they return differ.
pub proof fn lemma_client_halves_tell_rounds_apart(
    secret: Seq<u8>,
    server_salt: Seq<u8>,
    client_salt_a: Seq<u8>,
    client_salt_b: Seq<u8>,
    iterations: u32,
)
    requires
        client_salt_a != client_salt_b,
    ensures
        spec_hash_round(secret, server_salt + client_salt_a, iterations) != spec_hash_round(
            secret,
            server_salt + client_salt_b,
            iterations,
        ),
{
    let a = server_salt + client_salt_a;
    let b = server_salt + client_salt_b;
    if a == b {
        assert(a.subrange(server_salt.len() as int, a.len() as int) == client_salt_a);
        assert(b.subrange(server_salt.len() as int, b.len() as int) == client_salt_b);
    }
}

} // verus!
