use vstd::prelude::*;

verus! {

/// What a client that waits for an answer does next.
#[derive(Clone, Copy, Debug, PartialEq, Eq, Structural)]
pub enum WaitStep {
    /// The answer has arrived: go on and read it.
    Read,
    /// Wait once more for the socket, at most this many milliseconds where a
    /// number is given.
    Poll(Option<u64>),
    /// Every attempt allowed has passed without an answer: give up.
    TimedOut,
    /// The connection is to end and brings no answer any more: give up.
    Closed,
}

/// The next step of a wait, by the attempts made so far, whether the answer
/// has arrived and whether the connection is to end: an answer that is there
/// is read; failing that, a connection that is to end is given up; failing
/// that, a wait that has used its attempts is over; failing that, one more
/// attempt is made. Without a number of attempts the wait ends only with
/// the answer or with the connection.
pub open spec fn spec_wait_and_read_branched(
    polled: u32,
    arrived: bool,
    closing: bool,
    attempts: Option<u32>,
    timeout_ms: Option<u64>,
) -> WaitStep {
    if arrived {
        WaitStep::Read
    } else if closing {
        WaitStep::Closed
    } else if attempts is Some && polled >= attempts->0 {
        WaitStep::TimedOut
    } else {
        WaitStep::Poll(timeout_ms)
    }
}

/// Says what a client that waits for an answer does next.
///
/// The caller starts with no attempt made, and after each `Poll` performs
/// the wait, counts it and asks again. With `attempts` given, at most that
/// many waits are asked for before the answer is `TimedOut`.
pub fn wait_and_read_branched(
    polled: u32,
    arrived: bool,
    closing: bool,
    attempts: Option<u32>,
    timeout_ms: Option<u64>,
) -> (step: WaitStep)
    ensures
        step == spec_wait_and_read_branched(polled, arrived, closing, attempts, timeout_ms),
{
    if arrived {
        return WaitStep::Read;
    }
    if closing {
        return WaitStep::Closed;
    }
    match attempts {
        Some(limit) => {
            if polled >= limit {
                WaitStep::TimedOut
            } else {
                WaitStep::Poll(timeout_ms)
            }
        },
        None => WaitStep::Poll(timeout_ms),
    }
}

} // verus!
