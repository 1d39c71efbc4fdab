//! What the two ends of the protocol agree on: each reads what the other
//! writes as it was meant.

use vstd::prelude::*;
use vstd::utf8::*;

use crate::client::account::creation::{
    spec_decision, spec_is_registration, spec_registration, spec_registration_bytes,
};
use crate::client::account::hash_email::spec_hash_email;
use crate::client::account::hash_pwd::spec_hash_pwd;
use crate::client::network::cmd::get_server_salt::{spec_get_server_salt, spec_salt_request};
use crate::common::account::hash::HALF_SALT_LEN;
use crate::common::message::message::MessageView;
use crate::common::message::payload::lemma_parse_serialized_fields;
use crate::common::message::wire::{lemma_decode_encode, spec_decode, spec_encode, DecodeError};
use crate::common::misc::return_flags::ReturnFlags;
use crate::server::account::creation::{spec_acc_parse, AccountRequestView};
use crate::server::network::cmd::gen_hash_salt::{spec_is_salt_request, spec_salt_reply};
use crate::server::network::cmd::register::spec_server_return;
use crate::server::network::handle_data::{spec_handler, Handler};

verus! {

/// The server takes the client's request for a salt as one, and routes it to
/// the handler that draws salts.
pub proof fn lemma_salt_request_is_understood()
    ensures
        spec_decode(spec_encode(spec_salt_request())) == Ok::<(MessageView, int), DecodeError>(
            (spec_salt_request(), spec_encode(spec_salt_request()).len() as int),
        ),
        spec_is_salt_request(spec_salt_request()),
        spec_handler(spec_salt_request().instruction) == Some(Handler::GenHashSalt),
{
    lemma_decode_encode(spec_salt_request());
}

/// The client reads out of the server's answer the half salt that the server
/// put in.
pub proof fn lemma_salt_reply_is_understood(salt: Seq<u8>)
    requires
        salt.len() == HALF_SALT_LEN,
    ensures
        spec_get_server_salt(spec_encode(spec_salt_reply(salt))) == Ok::<Seq<u8>, ReturnFlags>(
            salt,
        ),
{
    lemma_decode_encode(spec_salt_reply(salt));
}

/// The server reads out of the client's registration the user name, the two
/// hashes and the two client halves that the client put in, and routes the
/// registration to the handler that registers.
pub proof fn lemma_registration_is_understood(
    username: Seq<char>,
    email_hash: Seq<u8>,
    email_client_salt: Seq<u8>,
    password_hash: Seq<u8>,
    password_client_salt: Seq<u8>,
)
    requires
        email_hash.len() == 64,
        email_client_salt.len() == 32,
        password_hash.len() == 64,
        password_client_salt.len() == 32,
        encode_utf8(username).len() <= u64::MAX,
    ensures
        ({
            let registration = spec_registration(
                encode_utf8(username),
                email_hash,
                email_client_salt,
                password_hash,
                password_client_salt,
            );
            &&& spec_acc_parse(registration) == Some(
                AccountRequestView {
                    username,
                    email_hash,
                    email_client_salt,
                    password_hash,
                    password_client_salt,
                },
            )
            &&& spec_handler(registration.instruction) == Some(Handler::Register)
        }),
{
    let fields = seq![
        email_hash,
        email_client_salt,
        password_hash,
        password_client_salt,
        encode_utf8(username),
        Seq::<u8>::empty(),
    ];
    lemma_parse_serialized_fields(fields);
    encode_utf8_valid_utf8(username);
    encode_utf8_decode_utf8(username);
}

/// What the client sends as the registration of a user reads, at the server,
/// as a registration with that user's name, and is routed to the handler
/// that registers.
pub proof fn lemma_sent_registration_is_understood(
    bytes: Seq<u8>,
    username: Seq<char>,
    email: Seq<char>,
    password: Seq<char>,
    email_server_salt: Seq<u8>,
    password_server_salt: Seq<u8>,
)
    requires
        spec_is_registration(
            bytes,
            username,
            email,
            password,
            email_server_salt,
            password_server_salt,
        ),
        bytes.len() <= usize::MAX,
        encode_utf8(username).len() <= u64::MAX,
    ensures
        spec_decode(bytes) is Ok,
        ({
            let message = spec_decode(bytes)->Ok_0.0;
            &&& spec_acc_parse(message) is Some
            &&& spec_acc_parse(message)->0.username == username
            &&& spec_handler(message.instruction) == Some(Handler::Register)
        }),
{
    let (ec, pc) = choose|ec: Seq<u8>, pc: Seq<u8>|
        ec.len() == 32 && pc.len() == 32 && spec_hash_email(
            encode_utf8(email),
            email_server_salt,
            ec,
        ).0.len() == 64 && spec_hash_pwd(encode_utf8(password), password_server_salt, pc).0.len()
            == 64 && bytes == #[trigger] spec_registration_bytes(
            username,
            email,
            password,
            email_server_salt,
            password_server_salt,
            ec,
            pc,
        );
    let email_hash = spec_hash_email(encode_utf8(email), email_server_salt, ec).0;
    let password_hash = spec_hash_pwd(encode_utf8(password), password_server_salt, pc).0;
    let registration = spec_registration(encode_utf8(username), email_hash, ec, password_hash, pc);
    vstd::bytes::lemma_auto_spec_u32_to_from_le_bytes();
    vstd::bytes::lemma_auto_spec_u64_to_from_le_bytes();
    assert(bytes.len() == 44 + registration.data.len());
    lemma_decode_encode(registration);
    lemma_registration_is_understood(username, email_hash, ec, password_hash, pc);
}

/// The client takes the server's acceptance as a success, and its rejection
/// as a rejection.
pub proof fn lemma_server_return_is_understood(accepted: bool, reply: Vec<u8>)
    requires
        reply@ == spec_encode(spec_server_return(accepted)),
    ensures
        spec_decision(Some(reply)) == if accepted {
            Ok::<(), ReturnFlags>(())
        } else {
            Err::<(), ReturnFlags>(ReturnFlags::ClientAccServerRejected)
        },
{
    lemma_decode_encode(spec_server_return(accepted));
}

} // verus!
