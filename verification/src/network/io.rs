use vstd::prelude::*;

verus! {

/// What a call on the socket or on the TLS session came to.
#[derive(Clone, Copy, Debug, PartialEq, Eq, Structural)]
pub enum IoOutcome {
    /// The call moved this many bytes.
    Done(usize),
    /// Nothing could be moved for now; this is no error.
    WouldBlock,
    /// The peer has ended the session.
    ConnectionAborted,
    /// Any other error.
    Failed,
}

/// What has just been done for a connection whose socket was readable.
#[derive(Clone, Debug, PartialEq, Eq)]
pub enum ReadEvent {
    /// Ciphertext was pulled from the socket into the session.
    TlsRead(IoOutcome),
    /// The session has processed the new packets, or failed to.
    PacketsProcessed(bool),
    /// The session's plaintext was drained: the bytes that came out, and how
    /// the draining ended.
    Plaintext(Vec<u8>, IoOutcome),
}

/// What is to be done next for a connection whose socket was readable.
#[derive(Clone, Copy, Debug, PartialEq, Eq, Structural)]
pub enum ReadStep {
    /// This turn is over.
    Stop,
    /// Let the session process the packets that were read.
    ProcessPackets,
    /// Drain the session's plaintext.
    ReadPlaintext,
}

/// The readiness that a connection waits for.
#[derive(Clone, Copy, Debug, PartialEq, Eq, Structural)]
pub enum Interest {
    Readable,
    Writable,
    ReadableWritable,
}

/// A readiness notification for the socket registered under `token`.
#[derive(Clone, Copy, Debug, PartialEq, Eq, Structural)]
pub struct Readiness {
    pub token: usize,
    pub readable: bool,
    pub writable: bool,
}

/// A request to wait for `interest` on the socket registered under `token`.
#[derive(Clone, Copy, Debug, PartialEq, Eq, Structural)]
pub struct Registration {
    pub token: usize,
    pub interest: Interest,
}

/// Whether an outcome is an error, a would-block included.
pub open spec fn spec_is_err(rc: IoOutcome) -> bool {
    !(rc is Done)
}

/// The step that follows an event of a read turn.
pub open spec fn spec_read_step(event: ReadEvent) -> ReadStep {
    match event {
        ReadEvent::TlsRead(IoOutcome::Done(n)) if n > 0 => ReadStep::ProcessPackets,
        ReadEvent::PacketsProcessed(true) => ReadStep::ReadPlaintext,
        _ => ReadStep::Stop,
    }
}

/// Whether an event of a read turn ends the connection: the peer closed, the
/// socket or the session failed, or the plaintext could not be drained to
/// its end. A socket that would block ends nothing.
pub open spec fn spec_read_closes(event: ReadEvent) -> bool {
    match event {
        ReadEvent::TlsRead(rc) => rc == IoOutcome::Done(0) || rc == IoOutcome::ConnectionAborted
            || rc == IoOutcome::Failed,
        ReadEvent::PacketsProcessed(ok) => !ok,
        ReadEvent::Plaintext(_, rc) => spec_is_err(rc),
    }
}

/// What an event says of how the connection ends, if anything: a read of
/// zero bytes is the peer's graceful close, and a failed draining of plaintext
/// is graceful exactly when the peer had ended the session.
pub open spec fn spec_read_verdict(event: ReadEvent) -> Option<bool> {
    match event {
        ReadEvent::TlsRead(IoOutcome::Done(n)) if n == 0 => Some(true),
        ReadEvent::Plaintext(_, rc) if spec_is_err(rc) => Some(rc == IoOutcome::ConnectionAborted),
        _ => None,
    }
}

/// Whether the connection counts as gracefully closed after an event, given
/// whether it did before.
pub open spec fn spec_read_clean(clean_before: bool, event: ReadEvent) -> bool {
    match spec_read_verdict(event) {
        Some(clean) => clean,
        None => clean_before,
    }
}

/// The plaintext that an event brings.
pub open spec fn spec_read_plaintext(event: ReadEvent) -> Seq<u8> {
    match event {
        ReadEvent::Plaintext(bytes, _) => bytes@,
        _ => Seq::empty(),
    }
}

/// What an event of a read turn does to a connection.
#[derive(Debug, PartialEq, Eq)]
pub struct ReadEffect {
    /// What is to be done next.
    pub step: ReadStep,
    /// The connection is to end.
    pub closes: bool,
    /// Whether the connection ends gracefully, where the event says so.
    pub verdict: Option<bool>,
    /// The plaintext to add to what waits for a complete frame.
    pub plaintext: Vec<u8>,
}

/// Says what an event of a read turn does to a connection.
///
/// A read of zero bytes is the peer's graceful close. A socket that would
/// block ends the turn and nothing else. Any other error of the socket, and
/// any failure of the session, ends the connection. Plaintext is kept,
/// whatever else happened.
pub fn read_effect(event: ReadEvent) -> (effect: ReadEffect)
    ensures
        effect.step == spec_read_step(event),
        effect.closes == spec_read_closes(event),
        effect.verdict == spec_read_verdict(event),
        effect.plaintext@ == spec_read_plaintext(event),
{
    match event {
        ReadEvent::TlsRead(rc) => {
            let (step, closes, verdict) = match rc {
                IoOutcome::WouldBlock => (ReadStep::Stop, false, None),
                IoOutcome::Done(n) => {
                    if n == 0 {
                        (ReadStep::Stop, true, Some(true))
                    } else {
                        (ReadStep::ProcessPackets, false, None)
                    }
                },
                _ => (ReadStep::Stop, true, None),
            };
            ReadEffect { step, closes, verdict, plaintext: Vec::new() }
        },
        ReadEvent::PacketsProcessed(ok) => {
            let step = if ok {
                ReadStep::ReadPlaintext
            } else {
                ReadStep::Stop
            };
            ReadEffect { step, closes: !ok, verdict: None, plaintext: Vec::new() }
        },
        ReadEvent::Plaintext(plaintext, rc) => {
            let (closes, verdict) = match rc {
                IoOutcome::Done(_) => (false, None),
                _ => (true, Some(rc == IoOutcome::ConnectionAborted)),
            };
            ReadEffect { step: ReadStep::Stop, closes, verdict, plaintext }
        },
    }
}

/// Whether flushing ciphertext to the socket ended the connection: any error
/// does, but a socket that would block.
pub open spec fn spec_write_closes(rc: IoOutcome) -> bool {
    rc == IoOutcome::ConnectionAborted || rc == IoOutcome::Failed
}

/// Says whether what flushing ciphertext to the socket came to ends the
/// connection.
pub fn write_closes(rc: IoOutcome) -> (closes: bool)
    ensures
        closes == spec_write_closes(rc),
{
    match rc {
        IoOutcome::Done(_) => false,
        IoOutcome::WouldBlock => false,
        _ => true,
    }
}

/// The readiness to wait for, given what the TLS session wants: both when it
/// wants both, writes when it wants only writes, and reads otherwise.
pub open spec fn spec_ready_interest(wants_read: bool, wants_write: bool) -> Interest {
    if wants_read && wants_write {
        Interest::ReadableWritable
    } else if wants_write {
        Interest::Writable
    } else {
        Interest::Readable
    }
}

/// The readiness to wait for, given what the TLS session wants.
pub fn ready_interest(wants_read: bool, wants_write: bool) -> (interest: Interest)
    ensures
        interest == spec_ready_interest(wants_read, wants_write),
{
    if wants_read && wants_write {
        Interest::ReadableWritable
    } else if wants_write {
        Interest::Writable
    } else {
        Interest::Readable
    }
}

} // verus!
