use vstd::prelude::*;

verus! {

/// The error code that a non-blocking call returns when it cannot complete
/// now and must be tried again once the descriptor is ready (`EAGAIN`).
pub const WOULD_BLOCK: i32 = 11;

/// The error code of a wait that a signal cut short (`EINTR`).
pub const INTERRUPTED: i32 = 4;

/// An error reported by the operating system, by its error number.
#[derive(Clone, Copy, Debug, PartialEq, Eq, Structural)]
pub struct OsError {
    pub code: i32,
}

impl OsError {
    pub open spec fn spec_would_block(self) -> bool {
        self.code == WOULD_BLOCK
    }

    /// Whether the call must be retried once the descriptor is ready.
    pub fn would_block(&self) -> (r: bool)
        ensures
            r == self.spec_would_block(),
    {
        self.code == WOULD_BLOCK
    }
}

/// Readiness kinds that a registration with the multiplexer asks for.
#[derive(Clone, Copy, Debug, PartialEq, Eq, Structural)]
pub struct Interest {
    pub readable: bool,
    pub writable: bool,
    pub edge_triggered: bool,
}

/// The multiplexer's flag for read readiness (`EPOLLIN`).
pub const READABLE_BIT: i32 = 0x1;

/// The multiplexer's flag for write readiness (`EPOLLOUT`).
pub const WRITABLE_BIT: i32 = 0x4;

/// The multiplexer's flag for edge-triggered notification (`EPOLLET`, the
/// sign bit).
pub const EDGE_TRIGGERED_BIT: i32 = -0x8000_0000;

/// The flag word for an interest, as the sum of its disjoint bits.
pub open spec fn spec_epoll_bits(i: Interest) -> int {
    (if i.readable { READABLE_BIT as int } else { 0 }) + (if i.writable {
        WRITABLE_BIT as int
    } else {
        0
    }) + (if i.edge_triggered { EDGE_TRIGGERED_BIT as int } else { 0 })
}

pub open spec fn read_interest() -> Interest {
    Interest { readable: true, writable: false, edge_triggered: false }
}

pub open spec fn edge_write_interest() -> Interest {
    Interest { readable: false, writable: true, edge_triggered: true }
}

impl Interest {
    /// Level-triggered read readiness.
    pub fn read() -> (r: Interest)
        ensures
            r == read_interest(),
    {
        Interest { readable: true, writable: false, edge_triggered: false }
    }

    /// The multiplexer's flag word for this interest.
    pub fn epoll_bits(&self) -> (r: i32)
        ensures
            r as int == spec_epoll_bits(*self),
    {
        let mut bits: i32 = 0;
        if self.readable {
            bits = bits + READABLE_BIT;
        }
        if self.writable {
            bits = bits + WRITABLE_BIT;
        }
        if self.edge_triggered {
            bits = bits + EDGE_TRIGGERED_BIT;
        }
        bits
    }

    /// Edge-triggered write readiness.
    pub fn edge_write() -> (r: Interest)
        ensures
            r == edge_write_interest(),
    {
        Interest { readable: false, writable: true, edge_triggered: true }
    }
}

/// What a suspending operation asks of the scheduler: wake me when `fd`
/// shows `interest`.
#[derive(Clone, Copy, Debug, PartialEq, Eq, Structural)]
pub struct Registration {
    pub fd: i32,
    pub interest: Interest,
}

} // verus!
