use vstd::prelude::*;
use vstd::slice::*;
use vstd::string::*;
use vstd::utf8::*;

use crate::client::account::hash_email::{hash_email_with, spec_hash_email};
use crate::client::account::hash_pwd::{hash_pwd_with, spec_hash_pwd};
use crate::client::network::cmd::get_server_salt::{
    get_server_salt, salt_request, spec_get_server_salt, spec_salt_request,
};
use crate::common::account::hash::gen_half_salt;
use crate::common::message::inst::{CommandInst, ServerReturnInst};
use crate::common::message::message::{
    Message, MessageView, SINGLE_MESSAGE_MAX, SINGLE_MESSAGE_NUMBER,
};
use crate::common::message::message_builder::message_builder;
use crate::common::message::message_type::MessageType;
use crate::common::message::payload::{fields_view, spec_serialize_fields};
use crate::common::message::wire::{decode, encode, spec_decode, spec_encode};
use crate::common::misc::return_flags::ReturnFlags;

verus! {

/// The attempts that a client makes to read the answer to a registration.
pub const REGISTER_ATTEMPTS: u32 = 15;

/// The milliseconds that each of those attempts may take.
pub const REGISTER_TIMEOUT_MS: u64 = 500;

/// Where the creation of an account stands.
#[derive(Clone, Copy, Debug, PartialEq, Eq)]
pub enum Stage {
    /// Nothing has been sent yet.
    Start,
    /// The server's half of the email salt has been asked for.
    EmailSalt,
    /// The server's half of the email salt is here, and its half of the
    /// password salt has been asked for.
    PasswordSalt([u8; 32]),
    /// The registration has been sent.
    Decision,
    /// The creation is over, with this result.
    Done(Result<(), ReturnFlags>),
}

/// What the caller does next for the creation of an account.
#[derive(Debug, PartialEq, Eq)]
pub enum CreationStep {
    /// Send the bytes, wait for the answer and hand it to `acc_create`. The
    /// wait is bounded where a number of attempts is given; an answer that
    /// does not come in time is handed over as `None`.
    Send { bytes: Vec<u8>, attempts: Option<u32>, timeout_ms: Option<u64> },
    /// Nothing more: the creation is over with this result.
    Finished(Result<(), ReturnFlags>),
}

/// The creation of one account, from the first request for a salt to the
/// server's decision.
#[derive(Clone, Debug, PartialEq, Eq)]
pub struct AccCreation {
    pub username: String,
    pub email: String,
    /// The raw password; it is dropped as soon as it has been hashed.
    pub password: String,
    pub stage: Stage,
}

/// The message that registers an account: a command with six fields, in this
/// order the email hash, the client's half of its salt, the password hash,
/// the client's half of its salt, the user name, and an empty field where an
/// older account would have its portfolio and transactions.
pub open spec fn spec_registration(
    username: Seq<u8>,
    email_hash: Seq<u8>,
    email_client_salt: Seq<u8>,
    password_hash: Seq<u8>,
    password_client_salt: Seq<u8>,
) -> MessageView {
    MessageView {
        message_type: MessageType::Command,
        instruction: CommandInst::Register.spec_code(),
        argument_count: 6,
        data_message_number: SINGLE_MESSAGE_NUMBER,
        data_message_max: SINGLE_MESSAGE_MAX,
        data: spec_serialize_fields(
            seq![
                email_hash,
                email_client_salt,
                password_hash,
                password_client_salt,
                username,
                Seq::<u8>::empty(),
            ],
        ),
    }
}

/// The bytes of the registration of a user under the server's and the
/// client's halves of the two salts: nothing of the email address and of the
/// password goes in but their client-side hashes.
pub open spec fn spec_registration_bytes(
    username: Seq<char>,
    email: Seq<char>,
    password: Seq<char>,
    email_server_salt: Seq<u8>,
    password_server_salt: Seq<u8>,
    email_client_salt: Seq<u8>,
    password_client_salt: Seq<u8>,
) -> Seq<u8> {
    spec_encode(
        spec_registration(
            encode_utf8(username),
            spec_hash_email(encode_utf8(email), email_server_salt, email_client_salt).0,
            email_client_salt,
            spec_hash_pwd(encode_utf8(password), password_server_salt, password_client_salt).0,
            password_client_salt,
        ),
    )
}

/// Whether bytes are a registration of the user under the server's halves of
/// the salts and some pair of client halves of the right length, with hashes
/// of the length of a hash.
pub open spec fn spec_is_registration(
    bytes: Seq<u8>,
    username: Seq<char>,
    email: Seq<char>,
    password: Seq<char>,
    email_server_salt: Seq<u8>,
    password_server_salt: Seq<u8>,
) -> bool {
    exists|email_client_salt: Seq<u8>, password_client_salt: Seq<u8>|
        email_client_salt.len() == 32 && password_client_salt.len() == 32 && spec_hash_email(
            encode_utf8(email),
            email_server_salt,
            email_client_salt,
        ).0.len() == 64 && spec_hash_pwd(
            encode_utf8(password),
            password_server_salt,
            password_client_salt,
        ).0.len() == 64 && bytes == #[trigger] spec_registration_bytes(
            username,
            email,
            password,
            email_server_salt,
            password_server_salt,
            email_client_salt,
            password_client_salt,
        )
}

/// The salt that an answer carries, if it came and carries one.
pub open spec fn spec_reply_salt(reply: Option<Vec<u8>>) -> Option<Seq<u8>> {
    match reply {
        Some(bytes) => match spec_get_server_salt(bytes@) {
            Ok(salt) => Some(salt),
            Err(_) => None,
        },
        None => None,
    }
}

/// What the server decided, by its answer to a registration: only a server
/// return with the instruction `Accepted` is a success. No answer in time is
/// a timeout; any other answer, readable or not, is a rejection.
pub open spec fn spec_decision(reply: Option<Vec<u8>>) -> Result<(), ReturnFlags> {
    match reply {
        None => Err(ReturnFlags::ClientWaitAndReadTimedOut),
        Some(bytes) => match spec_decode(bytes@) {
            Ok((message, _)) => if message.message_type == MessageType::ServerReturn
                && message.instruction == ServerReturnInst::Accepted.spec_code() {
                Ok(())
            } else {
                Err(ReturnFlags::ClientAccServerRejected)
            },
            Err(_) => Err(ReturnFlags::ClientAccServerRejected),
        },
    }
}

/// Whether a step asks the server for a salt and waits for it without bound.
pub open spec fn spec_asks_salt(step: CreationStep) -> bool {
    step matches CreationStep::Send { bytes, attempts, timeout_ms } && bytes@ == spec_encode(
        spec_salt_request(),
    ) && attempts is None && timeout_ms is None
}

/// Whether a step sends a registration of the user and waits for the
/// decision within the attempts allowed.
pub open spec fn spec_sends_registration(
    step: CreationStep,
    username: Seq<char>,
    email: Seq<char>,
    password: Seq<char>,
    email_server_salt: Seq<u8>,
    password_server_salt: Seq<u8>,
) -> bool {
    step matches CreationStep::Send { bytes, attempts, timeout_ms } && spec_is_registration(
        bytes@,
        username,
        email,
        password,
        email_server_salt,
        password_server_salt,
    ) && attempts == Some(REGISTER_ATTEMPTS) && timeout_ms == Some(REGISTER_TIMEOUT_MS)
}

/// Whether the creation has ended with `result`, now and for good.
pub open spec fn spec_ends(stage: Stage, step: CreationStep, result: Result<(), ReturnFlags>) -> bool {
    stage == Stage::Done(result) && step == CreationStep::Finished(result)
}

impl AccCreation {
    /// The creation of an account for a user, before anything was sent.
    pub fn new(username: &str, email: &str, password: &str) -> (creation: AccCreation)
        ensures
            creation.username@ == username@,
            creation.email@ == email@,
            creation.password@ == password@,
            creation.stage == Stage::Start,
    {
        AccCreation {
            username: String::from_str(username),
            email: String::from_str(email),
            password: String::from_str(password),
            stage: Stage::Start,
        }
    }

    /// Ends the creation with a result.
    fn end(&mut self, result: Result<(), ReturnFlags>) -> (step: CreationStep)
        ensures
            spec_ends(final(self).stage, step, result),
            final(self).username == old(self).username,
            final(self).email == old(self).email,
            final(self).password == old(self).password,
    {
        self.stage = Stage::Done(result);
        CreationStep::Finished(result)
    }
}

/// Builds the message that registers an account.
pub fn registration(
    username: &str,
    email_hash: &[u8; 64],
    email_client_salt: &[u8; 32],
    password_hash: &[u8; 64],
    password_client_salt: &[u8; 32],
) -> (r: Result<Message, ReturnFlags>)
    ensures
        r is Ok,
        r->Ok_0@ == spec_registration(
            encode_utf8(username@),
            email_hash@,
            email_client_salt@,
            password_hash@,
            password_client_salt@,
        ),
{
    let mut fields: Vec<Vec<u8>> = Vec::new();
    fields.push(slice_to_vec(email_hash.as_slice()));
    fields.push(slice_to_vec(email_client_salt.as_slice()));
    fields.push(slice_to_vec(password_hash.as_slice()));
    fields.push(slice_to_vec(password_client_salt.as_slice()));
    fields.push(slice_to_vec(username.as_bytes()));
    fields.push(Vec::new());
    proof {
        assert(fields_view(fields) =~= seq![
            email_hash@,
            email_client_salt@,
            password_hash@,
            password_client_salt@,
            encode_utf8(username@),
            Seq::<u8>::empty(),
        ]);
    }
    message_builder(
        MessageType::Command,
        CommandInst::Register.code(),
        6,
        SINGLE_MESSAGE_NUMBER,
        SINGLE_MESSAGE_MAX,
        &fields,
    )
}

/// Reads the server's decision out of its answer to a registration.
pub fn decision(reply: &Option<Vec<u8>>) -> (r: Result<(), ReturnFlags>)
    ensures
        r == spec_decision(*reply),
{
    match reply {
        None => Err(ReturnFlags::ClientWaitAndReadTimedOut),
        Some(bytes) => match decode(bytes.as_slice()) {
            Ok(response) => {
                if response.message_type == MessageType::ServerReturn && response.instruction
                    == ServerReturnInst::Accepted.code() {
                    Ok(())
                } else {
                    Err(ReturnFlags::ClientAccServerRejected)
                }
            },
            Err(_) => Err(ReturnFlags::ClientAccServerRejected),
        },
    }
}

/// Hashes an email address and a password under the full salts that the
/// given halves make, the server's half first, and gives the bytes of the
/// registration of the user: the two hashes, the two client halves and the
/// user name, and nothing else of the address and the password.
pub fn registration_with(
    username: &str,
    email: &str,
    password: &str,
    email_server_salt: [u8; 32],
    password_server_salt: [u8; 32],
    email_client_salt: [u8; 32],
    password_client_salt: [u8; 32],
) -> (r: Result<Vec<u8>, ReturnFlags>)
    ensures
        r is Ok,
        r->Ok_0@ == spec_registration_bytes(
            username@,
            email@,
            password@,
            email_server_salt@,
            password_server_salt@,
            email_client_salt@,
            password_client_salt@,
        ),
        spec_is_registration(
            r->Ok_0@,
            username@,
            email@,
            password@,
            email_server_salt@,
            password_server_salt@,
        ),
{
    let (email_hash, _) = hash_email_with(email.as_bytes(), email_server_salt, email_client_salt);
    let (password_hash, _) = hash_pwd_with(
        password.as_bytes(),
        password_server_salt,
        password_client_salt,
    );
    let message = match registration(
        username,
        &email_hash,
        &email_client_salt,
        &password_hash,
        &password_client_salt,
    ) {
        Ok(message) => message,
        Err(e) => {
            return Err(e);
        },
    };
    let bytes = encode(&message);
    proof {
        let ec = email_client_salt@;
        let pc = password_client_salt@;
        assert(ec.len() == 32 && pc.len() == 32);
        assert(email_hash@.len() == 64 && password_hash@.len() == 64);
        assert(bytes@ == spec_registration_bytes(
            username@,
            email@,
            password@,
            email_server_salt@,
            password_server_salt@,
            ec,
            pc,
        ));
    }
    Ok(bytes)
}

/// Hashes the email address and the password of a creation under the
/// server's halves of their salts and fresh client halves, and gives the
/// bytes of the registration.
fn hashed_registration(
    creation: &AccCreation,
    email_server_salt: [u8; 32],
    password_server_salt: [u8; 32],
) -> (r: Result<Vec<u8>, ReturnFlags>)
    ensures
        match r {
            Ok(bytes) => spec_is_registration(
                bytes@,
                creation.username@,
                creation.email@,
                creation.password@,
                email_server_salt@,
                password_server_salt@,
            ),
            Err(e) => e == ReturnFlags::CommonGenSaltFailed,
        },
{
    let email_client_salt = match gen_half_salt() {
        Ok(salt) => salt,
        Err(e) => {
            return Err(e);
        },
    };
    let password_client_salt = match gen_half_salt() {
        Ok(salt) => salt,
        Err(e) => {
            return Err(e);
        },
    };
    registration_with(
        creation.username.as_str(),
        creation.email.as_str(),
        creation.password.as_str(),
        email_server_salt,
        password_server_salt,
        email_client_salt,
        password_client_salt,
    )
}

/// Requests a server to create an account, one step at a time.
///
/// The first call gives the request for the server's half of the email salt.
/// Each later call takes the answer to what was sent last, `None` where none
/// came in time, and says what to do next: ask for the server's half of the
/// password salt; then hash the email address and the password under the full
/// salts, each with a fresh client half, and send the registration; then read
/// the server's decision. An answer that carries no salt ends the creation
/// with `ClientAccRetrieveSaltsFailed`, and a client half that cannot be
/// drawn ends it with `CommonGenSaltFailed`. Once the creation is over,
/// every call repeats its result.
pub fn acc_create(creation: &mut AccCreation, reply: Option<Vec<u8>>) -> (step: CreationStep)
    ensures
        final(creation).username@ == old(creation).username@,
        final(creation).email@ == old(creation).email@,
        match old(creation).stage {
            Stage::Start => spec_asks_salt(step) && final(creation).stage == Stage::EmailSalt
                && final(creation).password@ == old(creation).password@,
            Stage::EmailSalt => final(creation).password@ == old(creation).password@
                && match spec_reply_salt(reply) {
                Some(salt) => spec_asks_salt(step) && (final(creation).stage matches Stage::PasswordSalt(
                    kept,
                ) && kept@ == salt),
                None => spec_ends(
                    final(creation).stage,
                    step,
                    Err(ReturnFlags::ClientAccRetrieveSaltsFailed),
                ),
            },
            Stage::PasswordSalt(email_server_salt) => match spec_reply_salt(reply) {
                Some(password_server_salt) => {
                    ||| spec_sends_registration(
                        step,
                        old(creation).username@,
                        old(creation).email@,
                        old(creation).password@,
                        email_server_salt@,
                        password_server_salt,
                    ) && final(creation).stage == Stage::Decision && final(creation).password@.len()
                        == 0
                    ||| spec_ends(
                        final(creation).stage,
                        step,
                        Err(ReturnFlags::CommonGenSaltFailed),
                    )
                },
                None => spec_ends(
                    final(creation).stage,
                    step,
                    Err(ReturnFlags::ClientAccRetrieveSaltsFailed),
                ),
            },
            Stage::Decision => spec_ends(final(creation).stage, step, spec_decision(reply)),
            Stage::Done(result) => spec_ends(final(creation).stage, step, result),
        },
{
    match creation.stage {
        Stage::Start => {
            creation.stage = Stage::EmailSalt;
            CreationStep::Send { bytes: salt_request(), attempts: None, timeout_ms: None }
        },
        Stage::EmailSalt => {
            let salt = match &reply {
                Some(bytes) => get_server_salt(bytes.as_slice()),
                None => Err(ReturnFlags::ClientAccRetrieveSaltsFailed),
            };
            match salt {
                Ok(email_server_salt) => {
                    creation.stage = Stage::PasswordSalt(email_server_salt);
                    CreationStep::Send { bytes: salt_request(), attempts: None, timeout_ms: None }
                },
                Err(_) => creation.end(Err(ReturnFlags::ClientAccRetrieveSaltsFailed)),
            }
        },
        Stage::PasswordSalt(email_server_salt) => {
            let salt = match &reply {
                Some(bytes) => get_server_salt(bytes.as_slice()),
                None => Err(ReturnFlags::ClientAccRetrieveSaltsFailed),
            };
            match salt {
                Ok(password_server_salt) => {
                    match hashed_registration(creation, email_server_salt, password_server_salt) {
                        Ok(bytes) => {
                            creation.password = String::new();
                            creation.stage = Stage::Decision;
                            CreationStep::Send {
                                bytes,
                                attempts: Some(REGISTER_ATTEMPTS),
                                timeout_ms: Some(REGISTER_TIMEOUT_MS),
                            }
                        },
                        Err(e) => creation.end(Err(e)),
                    }
                },
                Err(_) => creation.end(Err(ReturnFlags::ClientAccRetrieveSaltsFailed)),
            }
        },
        Stage::Decision => {
            let result = decision(&reply);
            creation.end(result)
        },
        Stage::Done(result) => creation.end(result),
    }
}

} // verus!
