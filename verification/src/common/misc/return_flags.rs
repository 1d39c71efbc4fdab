use vstd::prelude::*;

verus! {

/// The reasons for which an operation of the library fails.
#[derive(Clone, Copy, Debug, PartialEq, Eq, Structural)]
pub enum ReturnFlags {
    /// A field of a message could not be serialized.
    CommonMessageBuildFailed,
    /// The system's random number generator gave no bytes.
    CommonGenSaltFailed,
    /// The answer to a salt request could not be read as a message.
    ClientGenSaltFailed,
    /// The answer to a salt request was no salt.
    ClientReqSaltInvMsg,
    /// A server salt for the new account could not be had.
    ClientAccRetrieveSaltsFailed,
    /// The server did not answer within the attempts allowed.
    ClientWaitAndReadTimedOut,
    /// The server answered with anything but an acceptance.
    ClientAccServerRejected,
    /// The payload of a registration was not six fields.
    ServerAccInvalidMessage,
    /// The user name of a registration is taken.
    ServerAccUserExists,
    /// The account store could not be searched.
    ServerDbSearchFailed,
    /// The account store refused the new account.
    ServerDbWriteFailed,
    /// The store refused the new position.
    ServerDbCreatePositionFailed,
    /// No stored hash was found for the user.
    ServerDbUserHashNotFound,
    /// The transaction history could not be retrieved.
    ServerRetrieveTransactionFailed,
}

impl ReturnFlags {
    /// The name under which a flag is reported.
    pub open spec fn spec_name(self) -> Seq<char> {
        match self {
            ReturnFlags::CommonMessageBuildFailed => "COMMON_MESSAGE_BUILD_FAILED"@,
            ReturnFlags::CommonGenSaltFailed => "COMMON_GEN_SALT_FAILED"@,
            ReturnFlags::ClientGenSaltFailed => "CLIENT_GEN_SALT_FAILED"@,
            ReturnFlags::ClientReqSaltInvMsg => "CLIENT_REQ_SALT_INV_MSG"@,
            ReturnFlags::ClientAccRetrieveSaltsFailed => "ACC_CREATE_RETRIEVE_SALTS_FAILED"@,
            ReturnFlags::ClientWaitAndReadTimedOut => "CLIENT_WAIT_AND_READ_TIMED_OUT"@,
            ReturnFlags::ClientAccServerRejected => "ACC_CREATE_FAILED_SERVER_REJECTED"@,
            ReturnFlags::ServerAccInvalidMessage => "SERVER_ACC_INVALID_MESSAGE"@,
            ReturnFlags::ServerAccUserExists => "SERVER_ACC_USER_EXISTS"@,
            ReturnFlags::ServerDbSearchFailed => "SERVER_DB_SEARCH_FAILED"@,
            ReturnFlags::ServerDbWriteFailed => "SERVER_DB_WRITE_FAILED"@,
            ReturnFlags::ServerDbCreatePositionFailed => "SERVER_DB_CREATE_POSITION_FAILED"@,
            ReturnFlags::ServerDbUserHashNotFound => "SERVER_DB_USER_HASH_NOT_FOUND"@,
            ReturnFlags::ServerRetrieveTransactionFailed => "SERVER_RETRIEVE_TRANSACTION_FAILED"@,
        }
    }

    /// The name under which a flag is reported.
    pub fn name(&self) -> (s: &'static str)
        ensures
            s@ == self.spec_name(),
    {
        match self {
            ReturnFlags::CommonMessageBuildFailed => "COMMON_MESSAGE_BUILD_FAILED",
            ReturnFlags::CommonGenSaltFailed => "COMMON_GEN_SALT_FAILED",
            ReturnFlags::ClientGenSaltFailed => "CLIENT_GEN_SALT_FAILED",
            ReturnFlags::ClientReqSaltInvMsg => "CLIENT_REQ_SALT_INV_MSG",
            ReturnFlags::ClientAccRetrieveSaltsFailed => "ACC_CREATE_RETRIEVE_SALTS_FAILED",
            ReturnFlags::ClientWaitAndReadTimedOut => "CLIENT_WAIT_AND_READ_TIMED_OUT",
            ReturnFlags::ClientAccServerRejected => "ACC_CREATE_FAILED_SERVER_REJECTED",
            ReturnFlags::ServerAccInvalidMessage => "SERVER_ACC_INVALID_MESSAGE",
            ReturnFlags::ServerAccUserExists => "SERVER_ACC_USER_EXISTS",
            ReturnFlags::ServerDbSearchFailed => "SERVER_DB_SEARCH_FAILED",
            ReturnFlags::ServerDbWriteFailed => "SERVER_DB_WRITE_FAILED",
            ReturnFlags::ServerDbCreatePositionFailed => "SERVER_DB_CREATE_POSITION_FAILED",
            ReturnFlags::ServerDbUserHashNotFound => "SERVER_DB_USER_HASH_NOT_FOUND",
            ReturnFlags::ServerRetrieveTransactionFailed => "SERVER_RETRIEVE_TRANSACTION_FAILED",
        }
    }
}

} // verus!
