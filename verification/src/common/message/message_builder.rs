use vstd::prelude::*;

use crate::common::message::message::{Message, MessageView};
use crate::common::message::message_type::MessageType;
use crate::common::message::payload::{fields_view, serialize_fields, spec_serialize_fields};
use crate::common::misc::return_flags::ReturnFlags;

verus! {

/// Builds a message from typed arguments.
///
/// Each field is serialized on its own and the results are concatenated, in
/// the order given, into the payload. The counts are taken as they are: it is
/// the receiver who checks them against the instruction. A failure would be
/// that of a field to serialize; fields of bytes always serialize, so the
/// message is always given.
pub fn message_builder(
    message_type: MessageType,
    instruction: i64,
    argument_count: usize,
    data_message_number: usize,
    data_message_max: usize,
    fields: &Vec<Vec<u8>>,
) -> (r: Result<Message, ReturnFlags>)
    ensures
        r is Ok,
        r->Ok_0@ == (MessageView {
            message_type,
            instruction,
            argument_count,
            data_message_number,
            data_message_max,
            data: spec_serialize_fields(fields_view(*fields)),
        }),
{
    match serialize_fields(fields) {
        Ok(data) => Ok(
            Message::new(
                message_type,
                instruction,
                argument_count,
                data_message_number,
                data_message_max,
                data,
            ),
        ),
        Err(e) => Err(e),
    }
}

} // verus!
