use vstd::prelude::*;
use vstd::string::*;

use crate::common::message::inst::DataTransferInst;
use crate::common::message::message::{Message, MessageView};
use crate::common::message::message_type::MessageType;
use crate::common::misc::assert_msg::{assert_msg, spec_assert_msg};
use crate::common::misc::return_flags::ReturnFlags;
use crate::network::tls_connection::TlsConnection;

verus! {

/// Whether a frame asks for a transaction history: a data transfer with the
/// instruction `GetUserTransactionHist`, one argument and a payload that is
/// not empty.
pub open spec fn spec_is_retrieve_transactions(message: MessageView) -> bool {
    spec_assert_msg(
        message,
        MessageType::DataTransfer,
        true,
        DataTransferInst::GetUserTransactionHist.spec_code(),
        true,
        1,
        false,
        0,
        false,
        0,
    ) && message.data.len() != 0
}

/// Takes up a request for a transaction history that a connection has
/// received, and says whether the history is to be retrieved.
///
/// A message of another shape marks the connection as one to end, and
/// nothing is answered.
pub fn retrieve_transactions(conn: &mut TlsConnection, message: &Message) -> (proceed: bool)
    ensures
        proceed == spec_is_retrieve_transactions(message@),
        final(conn).closing == (old(conn).closing || !proceed),
        final(conn).token == old(conn).token,
        final(conn).closed == old(conn).closed,
        final(conn).clean_closure == old(conn).clean_closure,
        final(conn).read_plaintext@ == old(conn).read_plaintext@,
{
    if assert_msg(
        message,
        MessageType::DataTransfer,
        true,
        DataTransferInst::GetUserTransactionHist.code(),
        true,
        1,
        false,
        0,
        false,
        0,
    ) && message.data.len() != 0 {
        true
    } else {
        conn.closing = true;
        false
    }
}

/// What retrieving a transaction history came to, given what the retrieval
/// said: success stays success, and a failure carries the words of the
/// retrieval behind the flag's name, a colon and a space.
pub fn retrieve_transactions_done(retrieved: Result<(), String>) -> (r: Result<(), String>)
    ensures
        match retrieved {
            Ok(_) => r is Ok,
            Err(err) => r is Err && r->Err_0@
                == ReturnFlags::ServerRetrieveTransactionFailed.spec_name() + ": "@ + err@,
        },
{
    match retrieved {
        Ok(()) => Ok(()),
        Err(err) => Err(
            String::from_str(ReturnFlags::ServerRetrieveTransactionFailed.name()).concat(
                ": ",
            ).concat(err.as_str()),
        ),
    }
}

} // verus!
