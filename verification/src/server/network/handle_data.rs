use vstd::prelude::*;

use crate::common::message::inst::CommandInst;
use crate::common::message::message::{Message, MessageView};
use crate::common::message::wire::{decode, spec_decode};
use crate::network::frames::spec_frame_len;
use crate::network::tls_connection::TlsConnection;

verus! {

/// The handlers that the server has registered.
#[derive(Clone, Copy, Debug, PartialEq, Eq, Structural)]
pub enum Handler {
    Register,
    GenHashSalt,
}

/// The handler that is registered for an instruction code, if any.
pub open spec fn spec_handler(instruction: i64) -> Option<Handler> {
    if instruction == CommandInst::Register.spec_code() {
        Some(Handler::Register)
    } else if instruction == CommandInst::GenHashSalt.spec_code() {
        Some(Handler::GenHashSalt)
    } else {
        None
    }
}

/// The handler that is registered for an instruction code, if any.
pub fn handler(instruction: i64) -> (r: Option<Handler>)
    ensures
        r == spec_handler(instruction),
{
    if instruction == CommandInst::Register.code() {
        Some(Handler::Register)
    } else if instruction == CommandInst::GenHashSalt.code() {
        Some(Handler::GenHashSalt)
    } else {
        None
    }
}

/// Handles the bytes of one frame that a connection has received.
///
/// Bytes that cannot be read as a message mark the connection as one to end:
/// senders that are not understood are not kept. A message is routed by its
/// instruction to the handler registered for it, which gets the message and
/// answers for itself; an instruction without a handler is passed over in
/// silence.
pub fn handle_data(conn: &mut TlsConnection, buf: &[u8]) -> (r: Option<(Handler, Message)>)
    ensures
        match spec_decode(buf@) {
            Ok((message, _)) => final(conn).closing == old(conn).closing && match spec_handler(
                message.instruction,
            ) {
                Some(handler) => r matches Some((h, m)) && h == handler && m@ == message,
                None => r is None,
            },
            Err(_) => r is None && final(conn).closing,
        },
        final(conn).token == old(conn).token,
        final(conn).closed == old(conn).closed,
        final(conn).clean_closure == old(conn).clean_closure,
        final(conn).read_plaintext@ == old(conn).read_plaintext@,
{
    let client_response = match decode(buf) {
        Ok(message) => message,
        Err(_) => {
            conn.closing = true;
            return None;
        },
    };
    match handler(client_response.instruction) {
        Some(handler) => Some((handler, client_response)),
        None => None,
    }
}

/// What serving the plaintext that waits on a connection comes to.
pub struct Served {
    /// The first message that has a handler, with that handler.
    pub routed: Option<(Handler, MessageView)>,
    /// The plaintext that is left waiting.
    pub left: Seq<u8>,
    /// A frame could not be read as a message.
    pub failed: bool,
}

/// Serves the complete frames at the start of `plaintext`, in the order in
/// which they arrived: messages without a handler are passed over, the first
/// message with a handler is routed, and a frame that is no message ends the
/// serving. What follows the last frame that was looked at is left.
pub open spec fn spec_handle_next(plaintext: Seq<u8>) -> Served
    decreases plaintext.len(),
{
    match spec_frame_len(plaintext) {
        None => Served { routed: None, left: plaintext, failed: false },
        Some(n) => {
            let left = plaintext.subrange(n, plaintext.len() as int);
            match spec_decode(plaintext.subrange(0, n)) {
                Err(_) => Served { routed: None, left, failed: true },
                Ok((message, _)) => match spec_handler(message.instruction) {
                    Some(handler) => Served { routed: Some((handler, message)), left, failed: false },
                    None => spec_handle_next(left),
                },
            }
        },
    }
}

/// Serves the plaintext that waits on a connection, frame by frame.
///
/// Gives the first message that has a handler and leaves what follows it for
/// the next call, so that frames are served in the order of their arrival.
/// Gives nothing once only an incomplete frame is left, which stays until the
/// rest has come, or when a frame is no message, which marks the connection
/// as one to end. On a connection that is to end nothing is served any more.
pub fn handle_next(conn: &mut TlsConnection) -> (r: Option<(Handler, Message)>)
    ensures
        old(conn).closing ==> r is None && final(conn).closing && final(conn).read_plaintext@
            == old(conn).read_plaintext@,
        !old(conn).closing ==> ({
            let served = spec_handle_next(old(conn).read_plaintext@);
            &&& final(conn).read_plaintext@ == served.left
            &&& final(conn).closing == served.failed
            &&& match served.routed {
                Some((handler, message)) => r matches Some((h, m)) && h == handler && m@ == message,
                None => r is None,
            }
        }),
        final(conn).token == old(conn).token,
        final(conn).closed == old(conn).closed,
        final(conn).clean_closure == old(conn).clean_closure,
{
    if conn.closing {
        return None;
    }
    loop
        invariant
            spec_handle_next(conn.read_plaintext@) == spec_handle_next(old(conn).read_plaintext@),
            !old(conn).closing,
            !conn.closing,
            conn.token == old(conn).token,
            conn.closed == old(conn).closed,
            conn.clean_closure == old(conn).clean_closure,
        decreases conn.read_plaintext@.len(),
    {
        let frame = match conn.take_frame() {
            Some(frame) => frame,
            None => {
                return None;
            },
        };
        let message = match decode(frame.as_slice()) {
            Ok(message) => message,
            Err(_) => {
                conn.closing = true;
                return None;
            },
        };
        match handler(message.instruction) {
            Some(handler) => {
                return Some((handler, message));
            },
            None => {},
        }
    }
}

} // verus!
