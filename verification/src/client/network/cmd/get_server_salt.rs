use vstd::prelude::*;

use crate::common::account::hash::{to_half_salt, HALF_SALT_LEN};
use crate::common::message::inst::CommandInst;
use crate::common::message::message::{
    Message, MessageView, SINGLE_MESSAGE_MAX, SINGLE_MESSAGE_NUMBER,
};
use crate::common::message::message_type::MessageType;
use crate::common::message::wire::{decode, encode, spec_decode, spec_encode};
use crate::common::misc::assert_msg::{assert_msg, spec_assert_msg};
use crate::common::misc::return_flags::ReturnFlags;

verus! {

/// The command that asks the server for a half salt: no argument and no
/// payload, sent as a single frame.
pub open spec fn spec_salt_request() -> MessageView {
    MessageView {
        message_type: MessageType::Command,
        instruction: CommandInst::GenHashSalt.spec_code(),
        argument_count: 0,
        data_message_number: SINGLE_MESSAGE_NUMBER,
        data_message_max: SINGLE_MESSAGE_MAX,
        data: Seq::empty(),
    }
}

/// Whether a frame carries a half salt: a data transfer with a single
/// argument and a payload as long as a half salt.
pub open spec fn spec_carries_salt(message: MessageView) -> bool {
    spec_assert_msg(message, MessageType::DataTransfer, false, 0, true, 1, false, 0, true, HALF_SALT_LEN)
}

/// The salt that the bytes of an answer carry, or the reason why they carry
/// none: they cannot be read as a message, or the message is no salt.
pub open spec fn spec_get_server_salt(reply: Seq<u8>) -> Result<Seq<u8>, ReturnFlags> {
    match spec_decode(reply) {
        Ok((message, _)) => if spec_carries_salt(message) {
            Ok(message.data)
        } else {
            Err(ReturnFlags::ClientReqSaltInvMsg)
        },
        Err(_) => Err(ReturnFlags::ClientGenSaltFailed),
    }
}

/// The bytes that ask the server for a half salt.
pub fn salt_request() -> (bytes: Vec<u8>)
    ensures
        bytes@ == spec_encode(spec_salt_request()),
{
    let message = Message::new(
        MessageType::Command,
        CommandInst::GenHashSalt.code(),
        0,
        SINGLE_MESSAGE_NUMBER,
        SINGLE_MESSAGE_MAX,
        Vec::new(),
    );
    encode(&message)
}

/// Obtains the server's half of a salt from the answer to `salt_request`.
///
/// All salts returned are of the size of half a hash, 32 bytes. Bytes that
/// are no message give `ClientGenSaltFailed`; a message that is no data
/// transfer with a single argument and a payload of 32 bytes gives
/// `ClientReqSaltInvMsg`.
pub fn get_server_salt(reply: &[u8]) -> (r: Result<[u8; 32], ReturnFlags>)
    ensures
        match spec_get_server_salt(reply@) {
            Ok(salt) => r is Ok && r->Ok_0@ == salt,
            Err(e) => r == Err::<[u8; 32], ReturnFlags>(e),
        },
{
    let ret_msg = match decode(reply) {
        Ok(message) => message,
        Err(_) => {
            return Err(ReturnFlags::ClientGenSaltFailed);
        },
    };
    if assert_msg(
        &ret_msg,
        MessageType::DataTransfer,
        false,
        0,
        true,
        1,
        false,
        0,
        true,
        HALF_SALT_LEN,
    ) {
        match to_half_salt(&ret_msg.data) {
            Some(salt) => Ok(salt),
            None => Err(ReturnFlags::ClientReqSaltInvMsg),
        }
    } else {
        Err(ReturnFlags::ClientReqSaltInvMsg)
    }
}

} // verus!
