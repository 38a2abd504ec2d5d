use vstd::prelude::*;
use crate::interest::{
    OsError, Interest, Registration, read_interest, edge_write_interest,
};

verus! {

/// The result of polling a suspendable operation once.
#[derive(Clone, Copy, Debug, PartialEq, Eq, Structural)]
pub enum OpPoll<T> {
    /// The operation finished with this outcome.
    Ready(T),
    /// The operation is suspended until the registration's readiness shows.
    Pending(Registration),
}

/// What the caller must do on a poll of a read operation.
#[derive(Clone, Copy, Debug, PartialEq, Eq, Structural)]
pub enum ReadPoll {
    /// Suspend the task until the registration's readiness shows.
    Pending(Registration),
    /// Read once from `fd` into at most `len` bytes; the outcome is the
    /// operation's result.
    Attempt { fd: i32, len: usize },
}

/// The outcome of a poll that attempted an accept or a write, given the
/// system call's outcome.
pub open spec fn attempt_poll<T>(
    attempt: Result<T, OsError>,
    fd: i32,
    interest: Interest,
) -> OpPoll<Result<T, OsError>> {
    match attempt {
        Err(e) if e.spec_would_block() => OpPoll::Pending(Registration { fd, interest }),
        _ => OpPoll::Ready(attempt),
    }
}

fn decide_attempt<T>(attempt: Result<T, OsError>, fd: i32, interest: Interest) -> (r: OpPoll<
    Result<T, OsError>,
>)
    ensures
        r == attempt_poll(attempt, fd, interest),
{
    let blocked = match &attempt {
        Ok(_) => false,
        Err(e) => e.would_block(),
    };
    if blocked {
        OpPoll::Pending(Registration { fd, interest })
    } else {
        OpPoll::Ready(attempt)
    }
}

/// Accepts one connection on a listening descriptor.
pub struct AsyncAccept {
    pub fd: i32,
}

impl AsyncAccept {
    pub fn new(fd: i32) -> (r: AsyncAccept)
        ensures
            r.fd == fd,
    {
        AsyncAccept { fd }
    }

    /// One poll, given the outcome of one non-blocking `accept` on `self.fd`.
    /// A connection or an error other than "would block" finishes the
    /// operation; "would block" suspends it on read readiness of the
    /// listening descriptor, as often as it comes.
    pub fn poll(&self, attempt: Result<i32, OsError>) -> (r: OpPoll<Result<i32, OsError>>)
        ensures
            r == attempt_poll(attempt, self.fd, read_interest()),
            attempt is Ok ==> r == OpPoll::<Result<i32, OsError>>::Ready(attempt),
            attempt is Err && attempt->Err_0.spec_would_block() ==> r == OpPoll::<
                Result<i32, OsError>,
            >::Pending(Registration { fd: self.fd, interest: read_interest() }),
    {
        decide_attempt(attempt, self.fd, Interest::read())
    }
}

/// Reads once from a descriptor, after first waiting for it to be registered.
pub struct AsyncRead {
    pub fd: i32,
    pub len: usize,
    pub first: bool,
}

impl AsyncRead {
    /// A read of at most `buf.len()` bytes from `fd`, not yet polled.
    pub fn new(fd: i32, buf: &[u8]) -> (r: AsyncRead)
        ensures
            r == (AsyncRead { fd, len: buf@.len() as usize, first: true }),
    {
        AsyncRead { fd, len: buf.len(), first: true }
    }

    /// One poll. The first always suspends on read readiness of `self.fd`,
    /// whatever the descriptor holds; every later one asks for a single read,
    /// whose outcome, "would block" included, is the operation's result.
    pub fn poll(&mut self) -> (r: ReadPoll)
        ensures
            old(self).first ==> r == ReadPoll::Pending(
                Registration { fd: old(self).fd, interest: read_interest() },
            ),
            !old(self).first ==> r == (ReadPoll::Attempt { fd: old(self).fd, len: old(self).len }),
            *final(self) == (AsyncRead { first: false, ..*old(self) }),
    {
        if self.first {
            self.first = false;
            ReadPoll::Pending(Registration { fd: self.fd, interest: Interest::read() })
        } else {
            ReadPoll::Attempt { fd: self.fd, len: self.len }
        }
    }
}

/// Writes a buffer to a descriptor once it takes data.
pub struct AsyncWrite {
    pub fd: i32,
    pub len: usize,
}

impl AsyncWrite {
    /// A write of all of `buf` to `fd`.
    pub fn new(fd: i32, buf: &[u8]) -> (r: AsyncWrite)
        ensures
            r == (AsyncWrite { fd, len: buf@.len() as usize }),
    {
        AsyncWrite { fd, len: buf.len() }
    }

    /// One poll, given the outcome of one non-blocking `write` of the buffer
    /// to `self.fd`. A byte count or an error other than "would block"
    /// finishes the operation; "would block" suspends it on edge-triggered
    /// write readiness, as often as it comes.
    pub fn poll(&self, attempt: Result<usize, OsError>) -> (r: OpPoll<Result<usize, OsError>>)
        ensures
            r == attempt_poll(attempt, self.fd, edge_write_interest()),
            attempt is Ok ==> r == OpPoll::<Result<usize, OsError>>::Ready(attempt),
            attempt is Err && attempt->Err_0.spec_would_block() ==> r == OpPoll::<
                Result<usize, OsError>,
            >::Pending(Registration { fd: self.fd, interest: edge_write_interest() }),
    {
        decide_attempt(attempt, self.fd, Interest::edge_write())
    }
}

/// An accept or a write that stays blocked gives the same suspension, on the
/// same descriptor and with the same interest, at every poll.
pub proof fn lemma_blocked_poll_repeats<T>(
    first: Result<T, OsError>,
    second: Result<T, OsError>,
    fd: i32,
    interest: Interest,
)
    requires
        first is Err && first->Err_0.spec_would_block(),
        second is Err && second->Err_0.spec_would_block(),
    ensures
        attempt_poll(first, fd, interest) == attempt_poll(second, fd, interest),
        attempt_poll(first, fd, interest) == OpPoll::<Result<T, OsError>>::Pending(
            Registration { fd, interest },
        ),
{
}

} // verus!
