use vstd::prelude::*;
use vstd::utf8::*;

use crate::common::account::hash::{gen_salt, to_half_salt, to_hash};
use crate::common::account::portfolio::Portfolio;
use crate::common::account::transaction::Transaction;
use crate::common::message::inst::CommandInst;
use crate::common::message::message::{Message, MessageView, SINGLE_MESSAGE_NUMBER};
use crate::common::message::message_type::MessageType;
use crate::common::message::payload::{
    fields_view, lemma_parsed_count, parse_fields, spec_parse_fields,
};
use crate::common::misc::assert_msg::{assert_msg, spec_assert_msg};
use crate::common::misc::hex::{hex_upper, spec_hex_upper};
use crate::common::misc::return_flags::ReturnFlags;
use crate::common::misc::text::text_from_utf8;
use crate::server::account::hash_email::{hash_email_with, spec_hash_email};
use crate::server::account::hash_pwd::{hash_pwd_with, spec_hash_pwd};
use crate::server::ds::account::{Account, AccountView};

verus! {

/// The number of fields in the payload of a registration.
pub const REGISTER_FIELDS: usize = 6;

/// What a client asks to be registered with: the name, and for the email
/// address and for the password the client's hash and the client's half of
/// its salt.
#[derive(Clone, Debug, PartialEq, Eq)]
pub struct AccountRequest {
    pub username: String,
    pub email_hash: [u8; 64],
    pub email_client_salt: [u8; 32],
    pub password_hash: [u8; 64],
    pub password_client_salt: [u8; 32],
}

/// What a request is, with its parts as sequences.
pub struct AccountRequestView {
    pub username: Seq<char>,
    pub email_hash: Seq<u8>,
    pub email_client_salt: Seq<u8>,
    pub password_hash: Seq<u8>,
    pub password_client_salt: Seq<u8>,
}

impl View for AccountRequest {
    type V = AccountRequestView;

    open spec fn view(&self) -> AccountRequestView {
        AccountRequestView {
            username: self.username@,
            email_hash: self.email_hash@,
            email_client_salt: self.email_client_salt@,
            password_hash: self.password_hash@,
            password_client_salt: self.password_client_salt@,
        }
    }
}

/// Whether a frame has the shape of a registration: a command with the
/// instruction `Register` and six arguments, sent as a single frame.
pub open spec fn spec_is_register(message: MessageView) -> bool {
    spec_assert_msg(
        message,
        MessageType::Command,
        true,
        CommandInst::Register.spec_code(),
        true,
        REGISTER_FIELDS,
        true,
        SINGLE_MESSAGE_NUMBER,
        false,
        0,
    )
}

/// The request that six fields make: email hash, client half of the email
/// salt, password hash, client half of the password salt, user name, and an
/// empty field in the place of the portfolio and the transactions, which a
/// new account does not have.
pub open spec fn spec_request_of_fields(fields: Seq<Seq<u8>>) -> Option<AccountRequestView> {
    if fields.len() == 6 && fields[0].len() == 64 && fields[1].len() == 32 && fields[2].len() == 64
        && fields[3].len() == 32 && valid_utf8(fields[4]) && fields[5].len() == 0 {
        Some(
            AccountRequestView {
                username: decode_utf8(fields[4]),
                email_hash: fields[0],
                email_client_salt: fields[1],
                password_hash: fields[2],
                password_client_salt: fields[3],
            },
        )
    } else {
        None
    }
}

/// The request that a frame carries, if it is a registration whose payload
/// is laid out as one.
pub open spec fn spec_acc_parse(message: MessageView) -> Option<AccountRequestView> {
    if !spec_is_register(message) {
        None
    } else {
        match spec_parse_fields(message.data, REGISTER_FIELDS as nat) {
            Some(fields) => spec_request_of_fields(fields),
            None => None,
        }
    }
}

/// The account that is stored for a request, given the salts that the server
/// drew for the email address and for the password: the server's hashes of
/// the client's hashes, all salts, everything in hexadecimal, with a password
/// as the credential and nothing held or traded yet.
pub open spec fn spec_account(
    request: AccountRequestView,
    email_salt: Seq<u8>,
    password_salt: Seq<u8>,
    account: AccountView,
) -> bool {
    &&& account.username == request.username
    &&& account.email_hash == spec_hex_upper(spec_hash_email(request.email_hash, email_salt).0)
    &&& account.server_email_salt == spec_hex_upper(email_salt)
    &&& account.client_email_salt == spec_hex_upper(request.email_client_salt)
    &&& account.pass_hash == spec_hex_upper(spec_hash_pwd(request.password_hash, password_salt).0)
    &&& account.server_pass_salt == spec_hex_upper(password_salt)
    &&& account.client_pass_salt == spec_hex_upper(request.password_client_salt)
    &&& account.is_pass
    &&& account.portfolio.position_history.len() == 0
    &&& account.portfolio.open_positions.len() == 0
    &&& account.transactions.len() == 0
}

/// Whether an account is one that is stored for a request, under some pair of
/// server salts of the length of a hash.
pub open spec fn spec_account_of(request: AccountRequestView, account: AccountView) -> bool {
    exists|email_salt: Seq<u8>, password_salt: Seq<u8>|
        email_salt.len() == 64 && password_salt.len() == 64 && #[trigger] spec_account(
            request,
            email_salt,
            password_salt,
            account,
        )
}

/// What an attempt to create an account comes to, given whether the name is
/// taken, whether the server's salts could be drawn and whether the store
/// took the account. A taken name is refused before anything else is done.
pub open spec fn spec_acc_create_outcome(user_exists: bool, salts_drawn: bool, inserted: bool) -> Result<
    (),
    ReturnFlags,
> {
    if user_exists {
        Err(ReturnFlags::ServerAccUserExists)
    } else if !salts_drawn {
        Err(ReturnFlags::CommonGenSaltFailed)
    } else if !inserted {
        Err(ReturnFlags::ServerDbWriteFailed)
    } else {
        Ok(())
    }
}

/// The user names that a store holds after an attempt to create an account,
/// where the store holds a name once it took an account of that name.
pub open spec fn spec_names_after(
    names: Set<Seq<char>>,
    username: Seq<char>,
    outcome: Result<(), ReturnFlags>,
) -> Set<Seq<char>> {
    if outcome is Ok {
        names.insert(username)
    } else {
        names
    }
}

/// Reads the request out of a registration.
///
/// The frame must be a registration and its payload must be exactly six
/// fields of the lengths that hashes and half salts have, with a user name
/// in UTF-8 and an empty sixth field.
pub fn acc_parse(message: &Message) -> (r: Result<AccountRequest, ReturnFlags>)
    ensures
        match spec_acc_parse(message@) {
            Some(request) => r is Ok && r->Ok_0@ == request,
            None => r == Err::<AccountRequest, ReturnFlags>(ReturnFlags::ServerAccInvalidMessage),
        },
{
    if !assert_msg(
        message,
        MessageType::Command,
        true,
        CommandInst::Register.code(),
        true,
        REGISTER_FIELDS,
        true,
        SINGLE_MESSAGE_NUMBER,
        false,
        0,
    ) {
        return Err(ReturnFlags::ServerAccInvalidMessage);
    }
    let fields = match parse_fields(message.data.as_slice(), REGISTER_FIELDS) {
        Some(fields) => fields,
        None => {
            return Err(ReturnFlags::ServerAccInvalidMessage);
        },
    };
    proof {
        let all = fields_view(fields);
        lemma_parsed_count(message.data@, REGISTER_FIELDS as nat);
        assert(all[0] == fields@[0]@);
        assert(all[1] == fields@[1]@);
        assert(all[2] == fields@[2]@);
        assert(all[3] == fields@[3]@);
        assert(all[4] == fields@[4]@);
        assert(all[5] == fields@[5]@);
    }
    if fields[5].len() != 0 {
        return Err(ReturnFlags::ServerAccInvalidMessage);
    }
    let email_hash = to_hash(&fields[0]);
    let email_client_salt = to_half_salt(&fields[1]);
    let password_hash = to_hash(&fields[2]);
    let password_client_salt = to_half_salt(&fields[3]);
    let username = text_from_utf8(fields[4].clone());
    match (email_hash, email_client_salt, password_hash, password_client_salt, username) {
        (
            Some(email_hash),
            Some(email_client_salt),
            Some(password_hash),
            Some(password_client_salt),
            Some(username),
        ) => Ok(
            AccountRequest {
                username,
                email_hash,
                email_client_salt,
                password_hash,
                password_client_salt,
            },
        ),
        _ => Err(ReturnFlags::ServerAccInvalidMessage),
    }
}

/// Makes the account of a request under server salts that are already drawn.
pub fn acc_create_with(request: &AccountRequest, email_salt: [u8; 64], password_salt: [u8; 64]) -> (account:
    Account)
    ensures
        spec_account(request@, email_salt@, password_salt@, account@),
{
    let email_server_hash = hash_email_with(request.email_hash.as_slice(), email_salt);
    let password_server_hash = hash_pwd_with(request.password_hash.as_slice(), password_salt);
    let transactions: Vec<Transaction> = Vec::new();
    Account {
        username: request.username.clone(),
        email_hash: hex_upper(email_server_hash.0.as_slice()),
        server_email_salt: hex_upper(email_server_hash.1.as_slice()),
        client_email_salt: hex_upper(request.email_client_salt.as_slice()),
        pass_hash: hex_upper(password_server_hash.0.as_slice()),
        server_pass_salt: hex_upper(password_server_hash.1.as_slice()),
        client_pass_salt: hex_upper(request.password_client_salt.as_slice()),
        is_pass: true,
        portfolio: Portfolio::default(),
        transactions,
    }
}

/// Creates the account that a client asked for.
///
/// Takes the request and whether the store already holds its user name. A
/// taken name is refused with `ServerAccUserExists` and nothing is made.
/// Otherwise the server draws a new salt for the email hash and one for the
/// password hash, hashes both once more and gives the account to store. The
/// caller writes it to the store and hands what came of that to
/// `acc_create_done`.
pub fn acc_create(request: &AccountRequest, user_exists: bool) -> (r: Result<Account, ReturnFlags>)
    ensures
        user_exists ==> r is Err,
        r is Err ==> Err::<(), ReturnFlags>(r->Err_0) == spec_acc_create_outcome(
            user_exists,
            false,
            false,
        ),
        r is Ok ==> spec_account_of(request@, r->Ok_0@),
{
    if user_exists {
        return Err(ReturnFlags::ServerAccUserExists);
    }
    let email_salt = match gen_salt() {
        Ok(salt) => salt,
        Err(e) => {
            return Err(e);
        },
    };
    let password_salt = match gen_salt() {
        Ok(salt) => salt,
        Err(e) => {
            return Err(e);
        },
    };
    let account = acc_create_with(request, email_salt, password_salt);
    proof {
        lemma_account_of(request@, email_salt@, password_salt@, account@);
    }
    Ok(account)
}

/// What the creation of an account came to, given whether the store took the
/// account that `acc_create` made.
pub fn acc_create_done(inserted: bool) -> (r: Result<(), ReturnFlags>)
    ensures
        r == spec_acc_create_outcome(false, true, inserted),
{
    if inserted {
        Ok(())
    } else {
        Err(ReturnFlags::ServerDbWriteFailed)
    }
}

/// The account made under two salts of the length of a hash is an account of
/// its request.
pub proof fn lemma_account_of(
    request: AccountRequestView,
    email_salt: Seq<u8>,
    password_salt: Seq<u8>,
    account: AccountView,
)
    requires
        email_salt.len() == 64,
        password_salt.len() == 64,
        spec_account(request, email_salt, password_salt, account),
    ensures
        spec_account_of(request, account),
{
}

/// Registering the same user name twice, with a store that holds a name once
/// it took an account of that name: where the name is free and the first
/// attempt gets its salts and is taken by the store, it succeeds; the second
/// attempt is then refused with `ServerAccUserExists`, whatever else
/// happens, and leaves the store as it was.
pub proof fn lemma_second_registration_is_refused(
    names: Set<Seq<char>>,
    username: Seq<char>,
    salts_drawn: bool,
    inserted: bool,
)
    requires
        !names.contains(username),
    ensures
        ({
            let first = spec_acc_create_outcome(names.contains(username), true, true);
            let names_then = spec_names_after(names, username, first);
            let second = spec_acc_create_outcome(
                names_then.contains(username),
                salts_drawn,
                inserted,
            );
            &&& first is Ok
            &&& second == Err::<(), ReturnFlags>(ReturnFlags::ServerAccUserExists)
            &&& spec_names_after(names_then, username, second) == names_then
        }),
{
}

} // verus!
