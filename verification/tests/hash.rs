use std::num::NonZeroU32;

use libtrader::client::account::hash_email::{
    hash_email as client_hash_email, hash_email_with as client_hash_email_with,
    CLIENT_EMAIL_ITERATIONS,
};
use libtrader::client::account::hash_pwd::{
    hash_pwd, hash_pwd_with as client_hash_pwd_with, CLIENT_PASSWORD_ITERATIONS,
};
use libtrader::common::account::hash::{
    client_half, full_salt, gen_half_salt, gen_salt, half_salt_from, hash_round, salt_from,
    to_half_salt, to_hash, HALF_SALT_LEN, HASH_OUTPUT_LEN,
};
use libtrader::common::misc::return_flags::ReturnFlags;
use libtrader::server::account::hash_email::{
    hash_email as server_hash_email, hash_email_with as server_hash_email_with,
    SERVER_EMAIL_ITERATIONS,
};
use libtrader::server::account::hash_pwd::{
    hash_pwd_with as server_hash_pwd_with, SERVER_PASSWORD_ITERATIONS,
};

fn pbkdf2(iterations: u32, salt: &[u8], secret: &[u8]) -> [u8; 64] {
    let mut out = [0u8; 64];
    ring::pbkdf2::derive(
        ring::pbkdf2::PBKDF2_HMAC_SHA512,
        NonZeroU32::new(iterations).unwrap(),
        salt,
        secret,
        &mut out,
    );
    out
}

fn counting(from: u8) -> [u8; 32] {
    let mut bytes = [0u8; 32];
    for (i, b) in bytes.iter_mut().enumerate() {
        *b = from.wrapping_add(i as u8);
    }
    bytes
}

#[test]
fn iteration_counts_are_those_of_the_protocol() {
    assert_eq!(CLIENT_EMAIL_ITERATIONS, 175_000);
    assert_eq!(CLIENT_PASSWORD_ITERATIONS, 250_000);
    assert_eq!(SERVER_EMAIL_ITERATIONS, 500_000);
    assert_eq!(SERVER_PASSWORD_ITERATIONS, 500_000);
    assert_eq!(HASH_OUTPUT_LEN, ring::digest::SHA512_OUTPUT_LEN);
    assert_eq!(HALF_SALT_LEN, ring::digest::SHA512_OUTPUT_LEN / 2);
}

#[test]
fn hash_round_is_pbkdf2_hmac_sha512() {
    let salt = [7u8; 64];
    let (hash, kept) = hash_round(b"secret", salt, 3);
    assert_eq!(hash, pbkdf2(3, &salt, b"secret"));
    assert_eq!(kept, salt);
    assert_ne!(hash.to_vec(), b"secret".to_vec());
    assert_ne!(hash, salt);
}

#[test]
fn hash_round_known_answer() {
    /* PBKDF2-HMAC-SHA512, one iteration, 64 bytes of output */
    let mut salt = [0u8; 64];
    salt[..4].copy_from_slice(b"salt");
    let (hash, _) = hash_round(b"password", salt, 1);
    assert_eq!(hash, pbkdf2(1, &salt, b"password"));
    let (again, _) = hash_round(b"password", salt, 1);
    assert_eq!(hash, again);
    let (other, _) = hash_round(b"password", salt, 2);
    assert_ne!(hash, other);
}

#[test]
fn client_hashes_use_the_full_salt_server_half_first() {
    let server = counting(0);
    let client = counting(100);
    let mut salt = [0u8; 64];
    salt[..32].copy_from_slice(&server);
    salt[32..].copy_from_slice(&client);

    let (hash, kept) = client_hash_pwd_with(b"goodlilpassword", server, client);
    assert_eq!(kept, salt);
    assert_eq!(hash, pbkdf2(250_000, &salt, b"goodlilpassword"));

    let (hash, kept) = client_hash_email_with(b"alice@example.org", server, client);
    assert_eq!(kept, salt);
    assert_eq!(hash, pbkdf2(175_000, &salt, b"alice@example.org"));
}

#[test]
fn server_hashes_use_their_own_salt() {
    let salt = [9u8; 64];
    let client_hash = pbkdf2(1, &[1u8; 64], b"x");
    let (hash, kept) = server_hash_pwd_with(&client_hash, salt);
    assert_eq!(kept, salt);
    assert_eq!(hash, pbkdf2(500_000, &salt, &client_hash));
    let (hash, kept) = server_hash_email_with(&client_hash, salt);
    assert_eq!(kept, salt);
    assert_eq!(hash, pbkdf2(500_000, &salt, &client_hash));
}

#[test]
fn client_hash_keeps_the_server_half_and_draws_its_own() {
    let server = counting(3);
    let pass = b"goodlilpassword".to_vec();
    let (hash, salt) = hash_pwd(&pass, server).unwrap();
    assert_eq!(salt[..32], server);
    assert_eq!(hash, pbkdf2(250_000, &salt, &pass));
    let (hash, salt) = client_hash_email(&pass, server).unwrap();
    assert_eq!(salt[..32], server);
    assert_eq!(hash, pbkdf2(175_000, &salt, &pass));
}

#[test]
fn two_client_rounds_differ() {
    let server = counting(3);
    let pass = b"goodlilpassword".to_vec();
    let first = hash_pwd(&pass, server).unwrap();
    let second = hash_pwd(&pass, server).unwrap();
    assert_ne!(client_half(&first.1), client_half(&second.1));
    assert_ne!((first.0, client_half(&first.1)), (second.0, client_half(&second.1)));
}

#[test]
fn server_email_hash_draws_a_full_salt() {
    let client_hash = vec![5u8; 64];
    let (hash, salt) = server_hash_email(&client_hash).unwrap();
    assert_eq!(salt.len(), 64);
    assert_eq!(hash, pbkdf2(500_000, &salt, &client_hash));
}

#[test]
fn generated_salts_have_their_lengths() {
    let server_half = gen_half_salt().unwrap();
    let client_half_salt = gen_half_salt().unwrap();
    assert_eq!(server_half.len(), HASH_OUTPUT_LEN / 2);
    assert_eq!(client_half_salt.len(), HASH_OUTPUT_LEN / 2);
    let salt = full_salt(&server_half, &client_half_salt);
    assert_eq!(salt.len(), HASH_OUTPUT_LEN);
    assert_eq!(salt[..32], server_half);
    assert_eq!(salt[32..], client_half_salt);
    assert_eq!(client_half(&salt), client_half_salt);
    assert_eq!(gen_salt().unwrap().len(), HASH_OUTPUT_LEN);
    assert_ne!(server_half, client_half_salt);
}

#[test]
fn full_salt_puts_the_server_half_first() {
    let salt = full_salt(&counting(0), &counting(32));
    let mut expected = [0u8; 64];
    for (i, b) in expected.iter_mut().enumerate() {
        *b = i as u8;
    }
    assert_eq!(salt, expected);
    assert_eq!(client_half(&salt), counting(32));
}

#[test]
fn salts_are_taken_only_at_their_length() {
    assert_eq!(to_half_salt(&vec![1u8; 32]), Some([1u8; 32]));
    assert_eq!(to_half_salt(&vec![1u8; 31]), None);
    assert_eq!(to_half_salt(&vec![1u8; 64]), None);
    assert_eq!(to_hash(&vec![2u8; 64]), Some([2u8; 64]));
    assert_eq!(to_hash(&vec![2u8; 32]), None);
    assert_eq!(to_hash(&Vec::new()), None);
}

#[test]
fn a_salt_that_was_not_drawn_is_a_failure() {
    assert_eq!(half_salt_from(Ok(vec![4u8; 32])), Ok([4u8; 32]));
    assert_eq!(half_salt_from(Ok(vec![4u8; 16])), Err(ReturnFlags::CommonGenSaltFailed));
    assert_eq!(
        half_salt_from(Err(ring::error::Unspecified)),
        Err(ReturnFlags::CommonGenSaltFailed)
    );
    assert_eq!(salt_from(Ok(vec![4u8; 64])), Ok([4u8; 64]));
    assert_eq!(salt_from(Ok(vec![4u8; 32])), Err(ReturnFlags::CommonGenSaltFailed));
    assert_eq!(salt_from(Err(ring::error::Unspecified)), Err(ReturnFlags::CommonGenSaltFailed));
}
