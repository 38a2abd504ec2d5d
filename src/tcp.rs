use vstd::prelude::*;
use crate::ops::{AsyncAccept, AsyncRead, AsyncWrite};

verus! {

/// One socket descriptor, owned exclusively.
#[derive(Debug)]
pub struct TcpSocket {
    pub fd: i32,
}

impl TcpSocket {
    /// Adopts a descriptor, such as one that an accept handed back.
    pub fn new_with_fd(fd: i32) -> (r: TcpSocket)
        ensures
            r.fd == fd,
    {
        TcpSocket { fd }
    }

    /// The operation that accepts one connection on this socket.
    pub fn accept(&self) -> (r: AsyncAccept)
        ensures
            r.fd == self.fd,
    {
        AsyncAccept::new(self.fd)
    }

    /// The operation that reads once from this socket into `buf`.
    pub fn read(&self, buf: &[u8]) -> (r: AsyncRead)
        ensures
            r == (AsyncRead { fd: self.fd, len: buf@.len() as usize, first: true }),
    {
        AsyncRead::new(self.fd, buf)
    }

    /// The operation that writes the first `n` bytes of `buf` to this socket.
    pub fn write(&self, buf: &[u8], n: usize) -> (r: AsyncWrite)
        requires
            n <= buf@.len(),
        ensures
            r == (AsyncWrite { fd: self.fd, len: n }),
    {
        let part = slice_prefix(buf, n);
        AsyncWrite::new(self.fd, part)
    }
}

fn slice_prefix(buf: &[u8], n: usize) -> (r: &[u8])
    requires
        n <= buf@.len(),
    ensures
        r@ == buf@.subrange(0, n as int),
{
    buf.split_at(n).0
}

} // verus!
