use vstd::prelude::*;

use crate::common::message::message::{Message, MessageView};
use crate::common::message::message_type::MessageType;

verus! {

/// Whether a frame has the expected shape: its type always counts, and each
/// of instruction, argument count, message number and payload length counts
/// where its flag is set.
pub open spec fn spec_assert_msg(
    message: MessageView,
    message_type: MessageType,
    instruction_check: bool,
    instruction: i64,
    arg_cnt_check: bool,
    arg_cnt: usize,
    msg_num_check: bool,
    msg_num: usize,
    data_len_check: bool,
    data_len: usize,
) -> bool {
    &&& message.message_type == message_type
    &&& instruction_check ==> message.instruction == instruction
    &&& arg_cnt_check ==> message.argument_count == arg_cnt
    &&& msg_num_check ==> message.data_message_number == msg_num
    &&& data_len_check ==> message.data.len() == data_len
}

/// Checks a received frame against the shape that its handler expects.
///
/// Returns `true` exactly when the type matches and every checked field is
/// equal to its expected value; a single mismatch gives `false`. A server
/// treats `false` as a reason to close the connection, a client as a protocol
/// error.
pub fn assert_msg(
    message: &Message,
    message_type: MessageType,
    instruction_check: bool,
    instruction: i64,
    arg_cnt_check: bool,
    arg_cnt: usize,
    msg_num_check: bool,
    msg_num: usize,
    data_len_check: bool,
    data_len: usize,
) -> (valid: bool)
    ensures
        valid == spec_assert_msg(
            message@,
            message_type,
            instruction_check,
            instruction,
            arg_cnt_check,
            arg_cnt,
            msg_num_check,
            msg_num,
            data_len_check,
            data_len,
        ),
{
    if message.message_type != message_type {
        return false;
    }
    if instruction_check && message.instruction != instruction {
        return false;
    }
    if arg_cnt_check && message.argument_count != arg_cnt {
        return false;
    }
    if msg_num_check && message.data_message_number != msg_num {
        return false;
    }
    if data_len_check && message.data.len() != data_len {
        return false;
    }
    true
}

} // verus!
