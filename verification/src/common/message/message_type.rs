use vstd::prelude::*;

verus! {

/// The kind of a message; it scopes the meaning of the instruction code.
#[derive(Clone, Copy, Debug, PartialEq, Eq, Structural)]
pub enum MessageType {
    Command,
    DataTransfer,
    ServerReturn,
}

impl MessageType {
    /// The number that stands for this kind on the wire.
    pub open spec fn spec_tag(self) -> u32 {
        match self {
            MessageType::Command => 0,
            MessageType::DataTransfer => 1,
            MessageType::ServerReturn => 2,
        }
    }

    /// The kind that a wire number stands for, if any.
    pub open spec fn spec_from_tag(tag: u32) -> Option<MessageType> {
        if tag == 0 {
            Some(MessageType::Command)
        } else if tag == 1 {
            Some(MessageType::DataTransfer)
        } else if tag == 2 {
            Some(MessageType::ServerReturn)
        } else {
            None
        }
    }

    #[verifier::when_used_as_spec(spec_tag)]
    pub fn tag(self) -> (t: u32)
        ensures
            t == self.spec_tag(),
    {
        match self {
            MessageType::Command => 0,
            MessageType::DataTransfer => 1,
            MessageType::ServerReturn => 2,
        }
    }

    pub fn from_tag(tag: u32) -> (r: Option<MessageType>)
        ensures
            r == Self::spec_from_tag(tag),
    {
        if tag == 0 {
            Some(MessageType::Command)
        } else if tag == 1 {
            Some(MessageType::DataTransfer)
        } else if tag == 2 {
            Some(MessageType::ServerReturn)
        } else {
            None
        }
    }

    /// Every kind is found again from its wire number.
    pub proof fn lemma_tag_round_trip(self)
        ensures
            Self::spec_from_tag(self.spec_tag()) == Some(self),
    {
    }
}

impl Default for MessageType {
    fn default() -> (r: MessageType)
        ensures
            r == MessageType::Command,
    {
        MessageType::Command
    }
}

} // verus!
