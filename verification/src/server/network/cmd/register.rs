use vstd::prelude::*;

use crate::common::message::inst::ServerReturnInst;
use crate::common::message::message::{
    Message, MessageView, SINGLE_MESSAGE_MAX, SINGLE_MESSAGE_NUMBER,
};
use crate::common::message::message_type::MessageType;
use crate::common::message::wire::{encode, spec_encode};
use crate::common::misc::return_flags::ReturnFlags;
use crate::network::tls_connection::TlsConnection;
use crate::server::account::creation::{
    acc_create, acc_create_done, acc_parse, spec_acc_create_outcome, spec_acc_parse,
    spec_account_of, AccountRequest, AccountRequestView,
};
use crate::server::db::cmd::create_account::{create_account, spec_create_account};
use crate::server::db::cmd::user_exists::{spec_user_exists, user_exists, user_exists_done};
use crate::server::db::statement::{Statement, StatementView};
use crate::server::ds::account::AccountView;

verus! {

/// The answer to a request: a server return without payload, whose
/// instruction says whether the request was carried out.
pub open spec fn spec_server_return(accepted: bool) -> MessageView {
    MessageView {
        message_type: MessageType::ServerReturn,
        instruction: if accepted {
            ServerReturnInst::Accepted.spec_code()
        } else {
            ServerReturnInst::Rejected.spec_code()
        },
        argument_count: 0,
        data_message_number: SINGLE_MESSAGE_NUMBER,
        data_message_max: SINGLE_MESSAGE_MAX,
        data: Seq::empty(),
    }
}

/// What the server does next for a registration.
#[derive(Debug, PartialEq, Eq)]
pub enum RegisterStep {
    /// Write the account to the store with this statement, and hand what came
    /// of it to `register_inserted`.
    Insert(Statement),
    /// Answer the client with these bytes; the registration is over with
    /// this result.
    Reply(Result<(), ReturnFlags>, Vec<u8>),
}

/// Whether a statement writes an account of the request to the store.
pub open spec fn spec_inserts_account_of(request: AccountRequestView, statement: StatementView) -> bool {
    exists|account: AccountView| #[trigger]
        spec_account_of(request, account) && statement == spec_create_account(account)
}

/// Whether a step ends a registration with `outcome` and answers the client
/// accordingly.
pub open spec fn spec_replies(step: RegisterStep, outcome: Result<(), ReturnFlags>) -> bool {
    step matches RegisterStep::Reply(result, bytes) && result == outcome && bytes@ == spec_encode(
        spec_server_return(outcome is Ok),
    )
}

/// Takes up a registration that a connection has received.
///
/// A message that is no well-formed registration marks the connection as
/// one to end, and nothing is answered. Otherwise the request is given with
/// the statement that searches the store for its user name; the caller runs
/// the search and hands the number of rows to `register_searched`.
pub fn register(conn: &mut TlsConnection, message: &Message) -> (r: Option<
    (AccountRequest, Statement),
>)
    ensures
        match spec_acc_parse(message@) {
            Some(request) => r matches Some((asked, search)) && asked@ == request && search@
                == spec_user_exists(request.username) && final(conn).closing == old(conn).closing,
            None => r is None && final(conn).closing,
        },
        final(conn).token == old(conn).token,
        final(conn).closed == old(conn).closed,
        final(conn).clean_closure == old(conn).clean_closure,
        final(conn).read_plaintext@ == old(conn).read_plaintext@,
{
    match acc_parse(message) {
        Ok(request) => {
            let search = user_exists(request.username.as_str());
            Some((request, search))
        },
        Err(_) => {
            conn.closing = true;
            None
        },
    }
}

/// Goes on with a registration once the store has been searched for the user
/// name; `rows` is the number of accounts found, or `None` where the store
/// could not be searched.
///
/// A store that could not be searched and a name that is taken end the
/// registration with a rejection, and no account is made. Otherwise the
/// account is made and the statement that writes it is given.
pub fn register_searched(request: &AccountRequest, rows: Option<usize>) -> (step: RegisterStep)
    ensures
        match rows {
            None => spec_replies(step, Err(ReturnFlags::ServerDbSearchFailed)),
            Some(n) if n > 0 => spec_replies(step, Err(ReturnFlags::ServerAccUserExists)),
            Some(_) => {
                ||| step matches RegisterStep::Insert(statement) && spec_inserts_account_of(
                    request@,
                    statement@,
                )
                ||| spec_replies(step, Err(ReturnFlags::CommonGenSaltFailed))
            },
        },
{
    let rows = match rows {
        Some(rows) => rows,
        None => {
            return reply(Err(ReturnFlags::ServerDbSearchFailed));
        },
    };
    match acc_create(request, user_exists_done(rows)) {
        Ok(account) => {
            let statement = create_account(&account);
            assert(spec_account_of(request@, account@) && statement@ == spec_create_account(
                account@,
            ));
            RegisterStep::Insert(statement)
        },
        Err(e) => reply(Err(e)),
    }
}

/// Ends a registration once the store was asked to take the account: with an
/// acceptance where it did, with a rejection where it did not.
pub fn register_inserted(inserted: bool) -> (step: RegisterStep)
    ensures
        spec_replies(step, spec_acc_create_outcome(false, true, inserted)),
{
    reply(acc_create_done(inserted))
}

/// The step that ends a registration with `outcome`.
fn reply(outcome: Result<(), ReturnFlags>) -> (step: RegisterStep)
    ensures
        spec_replies(step, outcome),
{
    let bytes = register_reply(&outcome);
    RegisterStep::Reply(outcome, bytes)
}

/// The bytes that answer a registration: an acceptance where the account
/// was created, a rejection for every failure.
pub fn register_reply(outcome: &Result<(), ReturnFlags>) -> (bytes: Vec<u8>)
    ensures
        bytes@ == spec_encode(spec_server_return(outcome is Ok)),
{
    let instruction = match outcome {
        Ok(_) => ServerReturnInst::Accepted.code(),
        Err(_) => ServerReturnInst::Rejected.code(),
    };
    let reply = Message::new(
        MessageType::ServerReturn,
        instruction,
        0,
        SINGLE_MESSAGE_NUMBER,
        SINGLE_MESSAGE_MAX,
        Vec::new(),
    );
    encode(&reply)
}

} // verus!
