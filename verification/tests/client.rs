use std::num::NonZeroU32;

use libtrader::client::account::creation::{
    acc_create, decision, registration, registration_with, AccCreation, CreationStep, Stage,
    REGISTER_ATTEMPTS, REGISTER_TIMEOUT_MS,
};
use libtrader::client::initializer::libtrader_init;
use libtrader::client::network::cmd::get_server_salt::{get_server_salt, salt_request};
use libtrader::client::network::cmd::wait_and_read_branched::{wait_and_read_branched, WaitStep};
use libtrader::common::message::inst::CommandInst;
use libtrader::common::message::message::Message;
use libtrader::common::message::message_type::MessageType;
use libtrader::common::message::payload::parse_fields;
use libtrader::common::message::wire::{decode, encode};
use libtrader::common::misc::return_flags::ReturnFlags;
use libtrader::network::tls_connection::TlsConnection;
use libtrader::server::network::cmd::gen_hash_salt::gen_hash_salt;
use libtrader::server::network::cmd::register::{
    register, register_inserted, register_reply, register_searched, RegisterStep,
};
use libtrader::server::network::handle_data::{handle_data, Handler};

fn salt_frame(len: usize) -> Vec<u8> {
    encode(&Message::new(MessageType::DataTransfer, 4, 1, 0, 0, vec![8u8; len]))
}

fn sent(step: CreationStep) -> (Vec<u8>, Option<u32>, Option<u64>) {
    match step {
        CreationStep::Send { bytes, attempts, timeout_ms } => (bytes, attempts, timeout_ms),
        CreationStep::Finished(result) => panic!("finished early: {:?}", result),
    }
}

/// Stands in for a server with an empty store: answers one frame.
fn serve(conn: &mut TlsConnection, frame: &[u8], names: &mut Vec<String>) -> Option<Vec<u8>> {
    match handle_data(conn, frame) {
        Some((Handler::GenHashSalt, message)) => gen_hash_salt(conn, &message),
        Some((Handler::Register, message)) => {
            let (request, _search) = register(conn, &message)?;
            let rows = names.iter().filter(|name| **name == request.username).count();
            match register_searched(&request, Some(rows)) {
                RegisterStep::Insert(_) => {
                    names.push(request.username);
                    match register_inserted(true) {
                        RegisterStep::Reply(_, bytes) => Some(bytes),
                        RegisterStep::Insert(_) => unreachable!(),
                    }
                }
                RegisterStep::Reply(_, bytes) => Some(bytes),
            }
        }
        _ => None,
    }
}

#[test]
fn salt_request_is_a_command_without_payload() {
    let request = decode(&salt_request()).unwrap();
    assert_eq!(
        request,
        Message::new(MessageType::Command, CommandInst::GenHashSalt.code(), 0, 0, 0, Vec::new())
    );
}

#[test]
fn salt_of_32_bytes_is_taken_and_of_16_is_not() {
    assert_eq!(get_server_salt(&salt_frame(32)), Ok([8u8; 32]));
    assert_eq!(get_server_salt(&salt_frame(16)), Err(ReturnFlags::ClientReqSaltInvMsg));

    let mut creation = AccCreation::new("alice", "alice@example.org", "goodlilpassword");
    acc_create(&mut creation, None);
    let step = acc_create(&mut creation, Some(salt_frame(16)));
    assert_eq!(step, CreationStep::Finished(Err(ReturnFlags::ClientAccRetrieveSaltsFailed)));
    assert_eq!(creation.stage, Stage::Done(Err(ReturnFlags::ClientAccRetrieveSaltsFailed)));
}

#[test]
fn get_server_salt_tells_its_failures_apart() {
    assert_eq!(get_server_salt(&[1, 2, 3]), Err(ReturnFlags::ClientGenSaltFailed));
    let wrong_type = encode(&Message::new(MessageType::Command, 4, 1, 0, 0, vec![8u8; 32]));
    assert_eq!(get_server_salt(&wrong_type), Err(ReturnFlags::ClientReqSaltInvMsg));
    let two_arguments = encode(&Message::new(MessageType::DataTransfer, 4, 2, 0, 0, vec![8u8; 32]));
    assert_eq!(get_server_salt(&two_arguments), Err(ReturnFlags::ClientReqSaltInvMsg));
    let rejected = register_reply(&Err(ReturnFlags::CommonGenSaltFailed));
    assert_eq!(get_server_salt(&rejected), Err(ReturnFlags::ClientReqSaltInvMsg));
}

#[test]
fn a_failed_password_salt_ends_the_creation() {
    let mut creation = AccCreation::new("alice", "alice@example.org", "goodlilpassword");
    acc_create(&mut creation, None);
    let step = acc_create(&mut creation, Some(salt_frame(32)));
    assert_eq!(sent(step), (salt_request(), None, None));
    assert_eq!(creation.stage, Stage::PasswordSalt([8u8; 32]));
    let step = acc_create(&mut creation, None);
    assert_eq!(step, CreationStep::Finished(Err(ReturnFlags::ClientAccRetrieveSaltsFailed)));
    let again = acc_create(&mut creation, Some(salt_frame(32)));
    assert_eq!(again, CreationStep::Finished(Err(ReturnFlags::ClientAccRetrieveSaltsFailed)));
}

#[test]
fn registration_has_six_fields_with_the_name_fifth() {
    let message = registration("alice", &[1u8; 64], &[2u8; 32], &[3u8; 64], &[4u8; 32]).unwrap();
    assert_eq!(message.message_type, MessageType::Command);
    assert_eq!(message.instruction, CommandInst::Register.code());
    assert_eq!(message.argument_count, 6);
    assert_eq!(message.data_message_number, 0);
    assert_eq!(message.data_message_max, 0);
    let fields = parse_fields(&message.data, 6).unwrap();
    assert_eq!(
        fields,
        vec![
            vec![1u8; 64],
            vec![2u8; 32],
            vec![3u8; 64],
            vec![4u8; 32],
            b"alice".to_vec(),
            Vec::new()
        ]
    );
    assert_eq!(message.data.len(), 6 * 8 + 64 + 32 + 64 + 32 + 5);
}

#[test]
fn decision_is_a_success_only_on_acceptance() {
    assert_eq!(decision(&Some(register_reply(&Ok(())))), Ok(()));
    assert_eq!(
        decision(&Some(register_reply(&Err(ReturnFlags::ServerAccUserExists)))),
        Err(ReturnFlags::ClientAccServerRejected)
    );
    let wrong_type = encode(&Message::new(MessageType::DataTransfer, 1, 0, 0, 0, Vec::new()));
    assert_eq!(decision(&Some(wrong_type)), Err(ReturnFlags::ClientAccServerRejected));
    let other_code = encode(&Message::new(MessageType::ServerReturn, 2, 0, 0, 0, Vec::new()));
    assert_eq!(decision(&Some(other_code)), Err(ReturnFlags::ClientAccServerRejected));
    assert_eq!(decision(&Some(vec![1, 2, 3])), Err(ReturnFlags::ClientAccServerRejected));
    assert_eq!(decision(&None), Err(ReturnFlags::ClientWaitAndReadTimedOut));
}

#[test]
fn an_account_is_created_against_a_server() {
    let mut conn = TlsConnection::new(1);
    let mut names: Vec<String> = Vec::new();
    let mut creation = AccCreation::new("alice", "alice@example.org", "goodlilpassword");
    assert_eq!(creation.stage, Stage::Start);

    let (bytes, attempts, timeout_ms) = sent(acc_create(&mut creation, None));
    assert_eq!((attempts, timeout_ms), (None, None));
    assert_eq!(creation.stage, Stage::EmailSalt);
    let email_salt = serve(&mut conn, &bytes, &mut names).unwrap();

    let (bytes, attempts, timeout_ms) = sent(acc_create(&mut creation, Some(email_salt.clone())));
    assert_eq!((attempts, timeout_ms), (None, None));
    assert_eq!(creation.stage, Stage::PasswordSalt(get_server_salt(&email_salt).unwrap()));
    let password_salt = serve(&mut conn, &bytes, &mut names).unwrap();
    assert_ne!(email_salt, password_salt);

    let (bytes, attempts, timeout_ms) = sent(acc_create(&mut creation, Some(password_salt)));
    assert_eq!((attempts, timeout_ms), (Some(15), Some(500)));
    assert_eq!((REGISTER_ATTEMPTS, REGISTER_TIMEOUT_MS), (15, 500));
    assert_eq!(creation.stage, Stage::Decision);
    assert_eq!(creation.password, "");
    assert_eq!(creation.username, "alice");
    let frame = decode(&bytes).unwrap();
    assert_eq!(frame.argument_count, 6);
    let fields = parse_fields(&frame.data, 6).unwrap();
    assert_eq!(fields[4], b"alice".to_vec());
    assert!(!bytes.windows(15).any(|w| w == b"goodlilpassword"));
    assert!(!bytes.windows(17).any(|w| w == b"alice@example.org"));
    let reply = serve(&mut conn, &bytes, &mut names).unwrap();

    let step = acc_create(&mut creation, Some(reply));
    assert_eq!(step, CreationStep::Finished(Ok(())));
    assert_eq!(creation.stage, Stage::Done(Ok(())));
    assert_eq!(acc_create(&mut creation, None), CreationStep::Finished(Ok(())));
    assert_eq!(names, vec!["alice".to_string()]);
    assert!(!conn.closing);

    /* the same name once more */
    let mut creation = AccCreation::new("alice", "other@example.org", "otherpassword");
    let (bytes, _, _) = sent(acc_create(&mut creation, None));
    let salt = serve(&mut conn, &bytes, &mut names).unwrap();
    let (bytes, _, _) = sent(acc_create(&mut creation, Some(salt)));
    let salt = serve(&mut conn, &bytes, &mut names).unwrap();
    let (bytes, _, _) = sent(acc_create(&mut creation, Some(salt)));
    let reply = serve(&mut conn, &bytes, &mut names).unwrap();
    let step = acc_create(&mut creation, Some(reply));
    assert_eq!(step, CreationStep::Finished(Err(ReturnFlags::ClientAccServerRejected)));
    assert_eq!(names, vec!["alice".to_string()]);
}

#[test]
fn no_answer_within_the_budget_is_a_timeout() {
    let mut creation = AccCreation::new("alice", "alice@example.org", "goodlilpassword");
    acc_create(&mut creation, None);
    acc_create(&mut creation, Some(salt_frame(32)));
    let (_, attempts, timeout_ms) = sent(acc_create(&mut creation, Some(salt_frame(32))));
    assert_eq!((attempts, timeout_ms), (Some(15), Some(500)));

    /* the server never replies */
    let mut polled: u32 = 0;
    let mut waited_ms: u64 = 0;
    let reply: Option<Vec<u8>> = loop {
        match wait_and_read_branched(polled, false, false, attempts, timeout_ms) {
            WaitStep::Read | WaitStep::Closed => unreachable!(),
            WaitStep::Poll(timeout) => {
                waited_ms += timeout.unwrap();
                polled += 1;
                assert!(polled <= 15);
            }
            WaitStep::TimedOut => break None,
        }
    };
    assert_eq!(polled, 15);
    assert_eq!(waited_ms, 7500);

    let step = acc_create(&mut creation, reply);
    assert_eq!(step, CreationStep::Finished(Err(ReturnFlags::ClientWaitAndReadTimedOut)));
    assert_eq!(creation.stage, Stage::Done(Err(ReturnFlags::ClientWaitAndReadTimedOut)));
}

#[test]
fn wait_and_read_branched_reads_what_has_arrived() {
    assert_eq!(wait_and_read_branched(0, true, false, Some(15), Some(500)), WaitStep::Read);
    assert_eq!(wait_and_read_branched(15, true, false, Some(15), Some(500)), WaitStep::Read);
    assert_eq!(wait_and_read_branched(15, true, true, Some(15), Some(500)), WaitStep::Read);
    assert_eq!(
        wait_and_read_branched(0, false, false, Some(15), Some(500)),
        WaitStep::Poll(Some(500))
    );
    assert_eq!(
        wait_and_read_branched(14, false, false, Some(15), Some(500)),
        WaitStep::Poll(Some(500))
    );
    assert_eq!(wait_and_read_branched(15, false, false, Some(15), Some(500)), WaitStep::TimedOut);
    assert_eq!(wait_and_read_branched(16, false, false, Some(15), None), WaitStep::TimedOut);
    assert_eq!(wait_and_read_branched(0, false, false, Some(0), None), WaitStep::TimedOut);
    assert_eq!(wait_and_read_branched(u32::MAX, false, false, None, None), WaitStep::Poll(None));
    assert_eq!(wait_and_read_branched(3, false, false, None, Some(20)), WaitStep::Poll(Some(20)));
}

#[test]
fn wait_and_read_branched_gives_up_a_connection_that_is_to_end() {
    assert_eq!(wait_and_read_branched(0, false, true, None, None), WaitStep::Closed);
    assert_eq!(wait_and_read_branched(3, false, true, Some(15), Some(500)), WaitStep::Closed);
    assert_eq!(wait_and_read_branched(15, false, true, Some(15), Some(500)), WaitStep::Closed);
}

#[test]
fn libtrader_init_reports_a_store_that_could_not_be_read() {
    assert_eq!(
        libtrader_init(Err("connection refused".to_string())),
        Err("INIT_DB_FAILED: connection refused".to_string())
    );
    assert_eq!(libtrader_init(Ok(Vec::new())).unwrap().companies.len(), 0);
}

#[test]
fn registration_with_hashes_under_the_full_salts() {
    let pbkdf2 = |iterations: u32, salt: &[u8], secret: &[u8]| {
        let mut out = [0u8; 64];
        ring::pbkdf2::derive(
            ring::pbkdf2::PBKDF2_HMAC_SHA512,
            NonZeroU32::new(iterations).unwrap(),
            salt,
            secret,
            &mut out,
        );
        out
    };
    let bytes = registration_with(
        "alice",
        "alice@example.org",
        "goodlilpassword",
        [1u8; 32],
        [2u8; 32],
        [3u8; 32],
        [4u8; 32],
    )
    .unwrap();
    let mut email_salt = vec![1u8; 32];
    email_salt.extend_from_slice(&[3u8; 32]);
    let mut password_salt = vec![2u8; 32];
    password_salt.extend_from_slice(&[4u8; 32]);
    let email_hash = pbkdf2(175_000, &email_salt, b"alice@example.org");
    let password_hash = pbkdf2(250_000, &password_salt, b"goodlilpassword");
    let expected =
        registration("alice", &email_hash, &[3u8; 32], &password_hash, &[4u8; 32]).unwrap();
    assert_eq!(bytes, encode(&expected));
    let fields = parse_fields(&decode(&bytes).unwrap().data, 6).unwrap();
    assert_eq!(fields[0], email_hash.to_vec());
    assert_eq!(fields[1], vec![3u8; 32]);
    assert_eq!(fields[2], password_hash.to_vec());
    assert_eq!(fields[3], vec![4u8; 32]);
    assert_eq!(fields[4], b"alice".to_vec());
    assert_eq!(fields[5], Vec::<u8>::new());
}

#[test]
fn building_a_message_from_fields_of_bytes_always_succeeds() {
    for fields in [
        Vec::new(),
        vec![Vec::new()],
        vec![vec![0u8; 70_000], vec![255u8; 3]],
        vec![Vec::new(); 40],
    ] {
        assert!(libtrader::common::message::message_builder::message_builder(
            MessageType::Command,
            2,
            fields.len(),
            0,
            0,
            &fields
        )
        .is_ok());
    }
}
