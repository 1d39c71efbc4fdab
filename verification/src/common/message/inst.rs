use vstd::prelude::*;

verus! {

/// Instructions of a `Command` message.
#[derive(Clone, Copy, Debug, PartialEq, Eq, Structural)]
pub enum CommandInst {
    /// Create an account from the six fields of the payload.
    Register,
    /// Hand out a fresh half salt; the message carries no payload.
    GenHashSalt,
}

/// Instructions of a `DataTransfer` message.
#[derive(Clone, Copy, Debug, PartialEq, Eq, Structural)]
pub enum DataTransferInst {
    /// The payload is a half salt that the server has just drawn.
    HashSalt,
    /// Ask for the transaction history of the user named in the payload.
    GetUserTransactionHist,
}

/// Instructions of a `ServerReturn` message.
#[derive(Clone, Copy, Debug, PartialEq, Eq, Structural)]
pub enum ServerReturnInst {
    /// The request was refused.
    Rejected,
    /// The request was carried out.
    Accepted,
}

impl CommandInst {
    pub open spec fn spec_code(self) -> i64 {
        match self {
            CommandInst::Register => 2,
            CommandInst::GenHashSalt => 3,
        }
    }

    /// The instruction code that stands for this command.
    #[verifier::when_used_as_spec(spec_code)]
    pub fn code(self) -> (c: i64)
        ensures
            c == self.spec_code(),
    {
        match self {
            CommandInst::Register => 2,
            CommandInst::GenHashSalt => 3,
        }
    }
}

impl DataTransferInst {
    pub open spec fn spec_code(self) -> i64 {
        match self {
            DataTransferInst::HashSalt => 4,
            DataTransferInst::GetUserTransactionHist => 5,
        }
    }

    /// The instruction code that stands for this transfer.
    #[verifier::when_used_as_spec(spec_code)]
    pub fn code(self) -> (c: i64)
        ensures
            c == self.spec_code(),
    {
        match self {
            DataTransferInst::HashSalt => 4,
            DataTransferInst::GetUserTransactionHist => 5,
        }
    }
}

impl ServerReturnInst {
    pub open spec fn spec_code(self) -> i64 {
        match self {
            ServerReturnInst::Rejected => 0,
            ServerReturnInst::Accepted => 1,
        }
    }

    /// The instruction code that stands for this answer.
    #[verifier::when_used_as_spec(spec_code)]
    pub fn code(self) -> (c: i64)
        ensures
            c == self.spec_code(),
    {
        match self {
            ServerReturnInst::Rejected => 0,
            ServerReturnInst::Accepted => 1,
        }
    }
}

} // verus!
