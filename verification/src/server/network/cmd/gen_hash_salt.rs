use vstd::prelude::*;
use vstd::slice::*;

use crate::common::account::hash::{gen_half_salt, HALF_SALT_LEN};
use crate::common::message::inst::{CommandInst, DataTransferInst};
use crate::common::message::message::{
    Message, MessageView, SINGLE_MESSAGE_MAX, SINGLE_MESSAGE_NUMBER,
};
use crate::common::message::message_type::MessageType;
use crate::common::message::wire::{encode, spec_encode, HEADER_LEN};
use crate::common::misc::assert_msg::{assert_msg, spec_assert_msg};
use crate::common::misc::return_flags::ReturnFlags;
use crate::network::tls_connection::TlsConnection;
use crate::server::network::cmd::register::{register_reply, spec_server_return};

verus! {

/// Whether a frame is a request for a salt: a command with the instruction
/// `GenHashSalt`, no argument and no payload, sent as a single frame.
pub open spec fn spec_is_salt_request(message: MessageView) -> bool {
    spec_assert_msg(
        message,
        MessageType::Command,
        true,
        CommandInst::GenHashSalt.spec_code(),
        true,
        0,
        true,
        SINGLE_MESSAGE_NUMBER,
        true,
        0,
    )
}

/// The message that carries a half salt to the client: a data transfer with
/// one argument, whose payload is the salt and nothing else.
pub open spec fn spec_salt_reply(salt: Seq<u8>) -> MessageView {
    MessageView {
        message_type: MessageType::DataTransfer,
        instruction: DataTransferInst::HashSalt.spec_code(),
        argument_count: 1,
        data_message_number: SINGLE_MESSAGE_NUMBER,
        data_message_max: SINGLE_MESSAGE_MAX,
        data: salt,
    }
}

/// Whether bytes are the answer to a request for a salt: a half salt in its
/// message, or a rejection.
pub open spec fn spec_is_salt_answer(bytes: Seq<u8>) -> bool {
    ||| bytes == spec_encode(spec_server_return(false))
    ||| bytes.len() == HEADER_LEN + HALF_SALT_LEN && bytes == spec_encode(
        spec_salt_reply(bytes.subrange(HEADER_LEN as int, HEADER_LEN + HALF_SALT_LEN)),
    )
}

/// The message that carries a half salt to the client.
pub fn salt_reply(salt: &[u8; 32]) -> (message: Message)
    ensures
        message@ == spec_salt_reply(salt@),
{
    Message::new(
        MessageType::DataTransfer,
        DataTransferInst::HashSalt.code(),
        1,
        SINGLE_MESSAGE_NUMBER,
        SINGLE_MESSAGE_MAX,
        slice_to_vec(salt.as_slice()),
    )
}

/// The bytes that answer a request for a salt, given what drawing one came
/// to: the salt in its message, or a rejection where none was drawn.
pub fn salt_answer(drawn: Result<[u8; 32], ReturnFlags>) -> (bytes: Vec<u8>)
    ensures
        match drawn {
            Ok(salt) => bytes@ == spec_encode(spec_salt_reply(salt@)),
            Err(_) => bytes@ == spec_encode(spec_server_return(false)),
        },
        spec_is_salt_answer(bytes@),
{
    match drawn {
        Ok(salt) => {
            let bytes = encode(&salt_reply(&salt));
            proof {
                crate::common::message::wire::lemma_decode_encode(spec_salt_reply(salt@));
                assert(bytes@.subrange(HEADER_LEN as int, HEADER_LEN + HALF_SALT_LEN) == salt@);
            }
            bytes
        },
        Err(e) => register_reply(&Err(e)),
    }
}

/// Answers a request for a salt that a connection has received.
///
/// A message that is no request for a salt marks the connection as one to
/// end, and nothing is answered. Otherwise a fresh half salt is drawn and the
/// bytes to send back are given.
pub fn gen_hash_salt(conn: &mut TlsConnection, message: &Message) -> (r: Option<Vec<u8>>)
    ensures
        spec_is_salt_request(message@) ==> r is Some && spec_is_salt_answer(r->0@)
            && final(conn).closing == old(conn).closing,
        !spec_is_salt_request(message@) ==> r is None && final(conn).closing,
        final(conn).token == old(conn).token,
        final(conn).closed == old(conn).closed,
        final(conn).clean_closure == old(conn).clean_closure,
        final(conn).read_plaintext@ == old(conn).read_plaintext@,
{
    if !assert_msg(
        message,
        MessageType::Command,
        true,
        CommandInst::GenHashSalt.code(),
        true,
        0,
        true,
        SINGLE_MESSAGE_NUMBER,
        true,
        0,
    ) {
        conn.closing = true;
        return None;
    }
    Some(salt_answer(gen_half_salt()))
}

} // verus!
