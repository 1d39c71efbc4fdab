use vstd::prelude::*;

use crate::network::frames::{accumulate, spec_frame_len, take_frame};
use crate::network::io::{
    read_effect, ready_interest, spec_read_clean, spec_read_closes, spec_read_plaintext,
    spec_read_step,
    spec_ready_interest, spec_write_closes, write_closes, Interest, IoOutcome, ReadEvent,
    ReadStep, Registration,
};

verus! {

/// What the event loop does with a connection once a turn is over.
#[derive(Clone, Copy, Debug, PartialEq, Eq, Structural)]
pub enum TurnEnd {
    /// Keep waiting on the socket, with this registration.
    Wait(Registration),
    /// Stop waiting on the socket and release it.
    Release,
}

/// The server's end of a connection: what is known of one accepted socket and
/// its TLS session, both of which the caller owns and drives.
#[derive(Clone, Debug, PartialEq, Eq)]
pub struct TlsConnection {
    /// The token under which the socket is registered.
    pub token: usize,
    /// The connection is to be ended.
    pub closing: bool,
    /// The connection ended gracefully.
    pub clean_closure: bool,
    /// The socket has been released.
    pub closed: bool,
    /// Decrypted plaintext that waits for the rest of its frame.
    pub read_plaintext: Vec<u8>,
}

impl TlsConnection {
    /// A connection that has just been accepted under `token`.
    pub fn new(token: usize) -> (conn: TlsConnection)
        ensures
            conn.token == token,
            !conn.closing,
            !conn.clean_closure,
            !conn.closed,
            conn.read_plaintext@.len() == 0,
    {
        TlsConnection {
            token,
            closing: false,
            clean_closure: false,
            closed: false,
            read_plaintext: Vec::new(),
        }
    }

    /// Takes what a step of a read turn came to and says what follows.
    ///
    /// A read of zero bytes is the peer's graceful close. A socket that would
    /// block ends the turn and nothing else. Any other error of the socket,
    /// and any failure of the session, ends the connection. Plaintext is
    /// added to what waits for a complete frame, whatever else happened.
    pub fn do_read(&mut self, event: ReadEvent) -> (step: ReadStep)
        ensures
            step == spec_read_step(event),
            final(self).closing == (old(self).closing || spec_read_closes(event)),
            final(self).clean_closure == spec_read_clean(old(self).clean_closure, event),
            final(self).read_plaintext@ == old(self).read_plaintext@ + spec_read_plaintext(event),
            final(self).token == old(self).token,
            final(self).closed == old(self).closed,
    {
        let effect = read_effect(event);
        accumulate(&mut self.read_plaintext, &effect.plaintext);
        if effect.closes {
            self.closing = true;
        }
        match effect.verdict {
            Some(clean) => {
                self.clean_closure = clean;
            },
            None => {},
        }
        effect.step
    }

    /// Takes what flushing the session's ciphertext to the socket came to.
    /// A socket that would block ends the turn; any other error ends the
    /// connection.
    pub fn do_write(&mut self, rc: IoOutcome)
        ensures
            final(self).closing == (old(self).closing || spec_write_closes(rc)),
            final(self).read_plaintext@ == old(self).read_plaintext@,
            final(self).token == old(self).token,
            final(self).closed == old(self).closed,
            final(self).clean_closure == old(self).clean_closure,
    {
        if write_closes(rc) {
            self.closing = true;
        }
    }

    /// Takes the first complete frame out of the plaintext that has arrived.
    /// An incomplete frame stays where it is until the rest has come.
    pub fn take_frame(&mut self) -> (frame: Option<Vec<u8>>)
        ensures
            match spec_frame_len(old(self).read_plaintext@) {
                Some(n) => frame is Some && frame->0@ == old(self).read_plaintext@.subrange(0, n)
                    && final(self).read_plaintext@ == old(self).read_plaintext@.subrange(
                    n,
                    old(self).read_plaintext@.len() as int,
                ),
                None => frame is None && final(self).read_plaintext@ == old(self).read_plaintext@,
            },
            final(self).closing == old(self).closing,
            final(self).token == old(self).token,
            final(self).closed == old(self).closed,
            final(self).clean_closure == old(self).clean_closure,
    {
        take_frame(&mut self.read_plaintext)
    }

    /// Registers the socket: gives the request to make, under the
    /// connection's token and for what the session wants.
    pub fn register(&self, wants_read: bool, wants_write: bool) -> (registration: Registration)
        ensures
            registration == (Registration {
                token: self.token,
                interest: spec_ready_interest(wants_read, wants_write),
            }),
    {
        Registration { token: self.token, interest: ready_interest(wants_read, wants_write) }
    }

    /// Ends a turn. An open connection keeps waiting for what its session
    /// wants. One that is to end keeps waiting, for writes only, while the
    /// session has ciphertext to flush; after that it is released for good.
    pub fn finish_turn(&mut self, wants_read: bool, wants_write: bool) -> (end: TurnEnd)
        ensures
            end == if old(self).closing && !wants_write {
                TurnEnd::Release
            } else if old(self).closing {
                TurnEnd::Wait(Registration { token: old(self).token, interest: Interest::Writable })
            } else {
                TurnEnd::Wait(
                    Registration {
                        token: old(self).token,
                        interest: spec_ready_interest(wants_read, wants_write),
                    },
                )
            },
            final(self).closed == (old(self).closed || (old(self).closing && !wants_write)),
            final(self).clean_closure == old(self).clean_closure,
            final(self).closing == old(self).closing,
            final(self).token == old(self).token,
            final(self).read_plaintext@ == old(self).read_plaintext@,
    {
        if self.closing {
            if wants_write {
                TurnEnd::Wait(Registration { token: self.token, interest: Interest::Writable })
            } else {
                self.closed = true;
                TurnEnd::Release
            }
        } else {
            TurnEnd::Wait(self.register(wants_read, wants_write))
        }
    }

    /// Marks the connection as one to end.
    pub fn close(&mut self)
        ensures
            final(self).closing,
            final(self).closed == old(self).closed,
            final(self).clean_closure == old(self).clean_closure,
            final(self).token == old(self).token,
            final(self).read_plaintext@ == old(self).read_plaintext@,
    {
        self.closing = true;
    }
}

} // verus!
