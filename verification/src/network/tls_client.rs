use vstd::prelude::*;

use crate::network::frames::{accumulate, spec_frame_len, take_frame};
use crate::network::io::{
    read_effect, ready_interest, spec_read_clean, spec_read_closes, spec_read_plaintext,
    spec_read_step, spec_ready_interest, spec_write_closes, write_closes, Interest, IoOutcome,
    ReadEvent, ReadStep, Readiness, Registration,
};

verus! {

/// The token under which a client registers its one socket.
pub const CLIENT_TOKEN: usize = 0;

/// Where a connection stands.
#[derive(Clone, Copy, Debug, PartialEq, Eq, Structural)]
pub enum ConnectionState {
    /// Made, and not yet waiting for any readiness.
    Idle,
    /// Waiting for the socket to become readable, writable or both.
    Ready { readable: bool, writable: bool },
    /// Told to end, with ciphertext still to be flushed.
    Closing,
    /// Told to end, with nothing left to flush: the socket can be released.
    Closed,
}

/// The client's end of a connection: what is known of one socket and one TLS
/// session, both of which the caller owns and drives.
#[derive(Clone, Debug, PartialEq, Eq)]
pub struct TlsClient {
    /// The connection is to be ended.
    pub closing: bool,
    /// The connection ended gracefully.
    pub clean_closure: bool,
    /// Decrypted plaintext that waits for the rest of its frame.
    pub read_plaintext: Vec<u8>,
    /// The socket has been registered for readiness.
    pub registered: bool,
}

impl TlsClient {
    /// A connection that has just been made: open, not registered, with
    /// nothing read.
    pub fn new() -> (client: TlsClient)
        ensures
            !client.closing,
            !client.clean_closure,
            !client.registered,
            client.read_plaintext@.len() == 0,
    {
        TlsClient {
            closing: false,
            clean_closure: false,
            read_plaintext: Vec::new(),
            registered: false,
        }
    }

    /// Where the connection stands, given what the TLS session wants.
    pub open spec fn spec_state(self, wants_read: bool, wants_write: bool) -> ConnectionState {
        if self.closing {
            if wants_write {
                ConnectionState::Closing
            } else {
                ConnectionState::Closed
            }
        } else if !self.registered {
            ConnectionState::Idle
        } else {
            match spec_ready_interest(wants_read, wants_write) {
                Interest::Readable => ConnectionState::Ready { readable: true, writable: false },
                Interest::Writable => ConnectionState::Ready { readable: false, writable: true },
                Interest::ReadableWritable => ConnectionState::Ready {
                    readable: true,
                    writable: true,
                },
            }
        }
    }

    /// Where the connection stands, given what the TLS session wants.
    pub fn state(&self, wants_read: bool, wants_write: bool) -> (state: ConnectionState)
        ensures
            state == self.spec_state(wants_read, wants_write),
    {
        if self.closing {
            if wants_write {
                ConnectionState::Closing
            } else {
                ConnectionState::Closed
            }
        } else if !self.registered {
            ConnectionState::Idle
        } else {
            match ready_interest(wants_read, wants_write) {
                Interest::Readable => ConnectionState::Ready { readable: true, writable: false },
                Interest::Writable => ConnectionState::Ready { readable: false, writable: true },
                Interest::ReadableWritable => ConnectionState::Ready {
                    readable: true,
                    writable: true,
                },
            }
        }
    }

    /// Takes a readiness notification for the client's socket and says what
    /// this turn holds: a read where the socket is readable, then a write
    /// where it is writable.
    pub fn ready(&self, ev: &Readiness) -> (turn: (bool, bool))
        requires
            ev.token == CLIENT_TOKEN,
        ensures
            turn == (ev.readable, ev.writable),
    {
        (ev.readable, ev.writable)
    }

    /// Takes what a step of a read turn came to and says what follows.
    ///
    /// A read of zero bytes is the peer's graceful close. A socket that would
    /// block ends the turn and nothing else. Any other error of the socket,
    /// and any failure of the session, ends the connection. Plaintext is
    /// added to what waits for a complete frame, whatever else happened.
    pub fn do_read(&mut self, event: ReadEvent) -> (step: ReadStep)
        ensures
            step == spec_read_step(event),
            final(self).closing == (old(self).closing || spec_read_closes(event)),
            final(self).clean_closure == spec_read_clean(old(self).clean_closure, event),
            final(self).read_plaintext@ == old(self).read_plaintext@ + spec_read_plaintext(event),
            final(self).registered == old(self).registered,
    {
        let effect = read_effect(event);
        accumulate(&mut self.read_plaintext, &effect.plaintext);
        if effect.closes {
            self.closing = true;
        }
        match effect.verdict {
            Some(clean) => {
                self.clean_closure = clean;
            },
            None => {},
        }
        effect.step
    }

    /// Takes what flushing the session's ciphertext to the socket came to.
    /// A socket that would block ends the turn; any other error ends the
    /// connection, and not gracefully.
    pub fn do_write(&mut self, rc: IoOutcome)
        ensures
            final(self).closing == (old(self).closing || spec_write_closes(rc)),
            final(self).clean_closure == old(self).clean_closure,
            final(self).read_plaintext@ == old(self).read_plaintext@,
            final(self).registered == old(self).registered,
    {
        if write_closes(rc) {
            self.closing = true;
        }
    }

    /// The readiness to wait for next, given what the TLS session wants.
    pub fn ready_interest(&self, wants_read: bool, wants_write: bool) -> (interest: Interest)
        ensures
            interest == spec_ready_interest(wants_read, wants_write),
    {
        ready_interest(wants_read, wants_write)
    }

    /// Registers the socket: gives the request to make, under the client's
    /// token and for what the session wants.
    pub fn register(&mut self, wants_read: bool, wants_write: bool) -> (registration: Registration)
        ensures
            registration == (Registration {
                token: CLIENT_TOKEN,
                interest: spec_ready_interest(wants_read, wants_write),
            }),
            final(self).registered,
            final(self).closing == old(self).closing,
            final(self).clean_closure == old(self).clean_closure,
            final(self).read_plaintext@ == old(self).read_plaintext@,
    {
        self.registered = true;
        Registration { token: CLIENT_TOKEN, interest: ready_interest(wants_read, wants_write) }
    }

    /// Marks the connection as one to end. The caller stops waiting on the
    /// socket and releases it once the session has nothing left to flush.
    pub fn close(&mut self)
        ensures
            final(self).closing,
            final(self).clean_closure == old(self).clean_closure,
            final(self).read_plaintext@ == old(self).read_plaintext@,
            final(self).registered == old(self).registered,
    {
        self.closing = true;
    }

    /// Takes the first complete frame out of the plaintext that has arrived.
    /// An incomplete frame stays where it is until the rest has come.
    pub fn take_frame(&mut self) -> (frame: Option<Vec<u8>>)
        ensures
            match spec_frame_len(old(self).read_plaintext@) {
                Some(n) => frame is Some && frame->0@ == old(self).read_plaintext@.subrange(0, n)
                    && final(self).read_plaintext@ == old(self).read_plaintext@.subrange(
                    n,
                    old(self).read_plaintext@.len() as int,
                ),
                None => frame is None && final(self).read_plaintext@ == old(self).read_plaintext@,
            },
            final(self).closing == old(self).closing,
            final(self).clean_closure == old(self).clean_closure,
            final(self).registered == old(self).registered,
    {
        take_frame(&mut self.read_plaintext)
    }
}

} // verus!
