use vstd::prelude::*;

use crate::common::message::message_type::MessageType;

verus! {

/// One complete unit of the protocol.
///
/// `data` is opaque here: how many fields it holds and how long they are is
/// fixed by `instruction`, and checked by the receiver, never by the frame.
#[derive(Clone, Debug, PartialEq, Eq)]
pub struct Message {
    pub message_type: MessageType,
    pub instruction: i64,
    pub argument_count: usize,
    pub data_message_number: usize,
    pub data_message_max: usize,
    pub data: Vec<u8>,
}

/// What a frame is, with the payload as a sequence of bytes.
pub struct MessageView {
    pub message_type: MessageType,
    pub instruction: i64,
    pub argument_count: usize,
    pub data_message_number: usize,
    pub data_message_max: usize,
    pub data: Seq<u8>,
}

impl View for Message {
    type V = MessageView;

    open spec fn view(&self) -> MessageView {
        MessageView {
            message_type: self.message_type,
            instruction: self.instruction,
            argument_count: self.argument_count,
            data_message_number: self.data_message_number,
            data_message_max: self.data_message_max,
            data: self.data@,
        }
    }
}

/// The position of a payload that travels in a single frame.
pub const SINGLE_MESSAGE_NUMBER: usize = 0;

/// The number of frames announced by a payload that travels in a single frame.
pub const SINGLE_MESSAGE_MAX: usize = 0;

impl Message {
    /// A frame around a payload that is already laid out.
    pub fn new(
        message_type: MessageType,
        instruction: i64,
        argument_count: usize,
        data_message_number: usize,
        data_message_max: usize,
        data: Vec<u8>,
    ) -> (m: Message)
        ensures
            m@ == (MessageView {
                message_type,
                instruction,
                argument_count,
                data_message_number,
                data_message_max,
                data: data@,
            }),
    {
        Message {
            message_type,
            instruction,
            argument_count,
            data_message_number,
            data_message_max,
            data,
        }
    }
}

impl Default for Message {
    fn default() -> (m: Message)
        ensures
            m@ == (MessageView {
                message_type: MessageType::Command,
                instruction: 0,
                argument_count: 0,
                data_message_number: 0,
                data_message_max: 0,
                data: Seq::<u8>::empty(),
            }),
    {
        Message {
            message_type: MessageType::Command,
            instruction: 0,
            argument_count: 0,
            data_message_number: 0,
            data_message_max: 0,
            data: Vec::new(),
        }
    }
}

} // verus!
