use epoll_runtime::interest::{Interest, OsError, Registration, INTERRUPTED, WOULD_BLOCK};
use epoll_runtime::ops::{AsyncAccept, AsyncRead, AsyncWrite, OpPoll, ReadPoll};
use epoll_runtime::tcp::TcpSocket;

fn read_reg(fd: i32) -> Registration {
    Registration { fd, interest: Interest { readable: true, writable: false, edge_triggered: false } }
}

fn write_reg(fd: i32) -> Registration {
    Registration { fd, interest: Interest { readable: false, writable: true, edge_triggered: true } }
}

#[test]
fn interest_constructors() {
    assert_eq!(Interest::read(), read_reg(0).interest);
    assert_eq!(Interest::edge_write(), write_reg(0).interest);
    assert_ne!(Interest::read(), Interest::edge_write());
}

#[test]
fn would_block_code() {
    assert!(OsError { code: WOULD_BLOCK }.would_block());
    assert!(OsError { code: 11 }.would_block());
    assert!(!OsError { code: INTERRUPTED }.would_block());
    assert!(!OsError { code: 104 }.would_block());
}

#[test]
fn read_first_poll_suspends() {
    let buf = [0u8; 4096];
    let mut op = AsyncRead::new(7, &buf);
    assert!(op.first);
    assert_eq!(op.len, 4096);
    assert_eq!(op.poll(), ReadPoll::Pending(read_reg(7)));
    assert!(!op.first);
}

#[test]
fn read_later_polls_attempt() {
    let buf = [0u8; 16];
    let mut op = AsyncRead::new(9, &buf);
    let _ = op.poll();
    assert_eq!(op.poll(), ReadPoll::Attempt { fd: 9, len: 16 });
    assert_eq!(op.poll(), ReadPoll::Attempt { fd: 9, len: 16 });
}

#[test]
fn accept_would_block_repeats() {
    let op = AsyncAccept::new(3);
    for _ in 0..3 {
        assert_eq!(op.poll(Err(OsError { code: WOULD_BLOCK })), OpPoll::Pending(read_reg(3)));
    }
}

#[test]
fn accept_connection_ready() {
    let op = AsyncAccept::new(3);
    assert_eq!(op.poll(Ok(12)), OpPoll::Ready(Ok(12)));
}

#[test]
fn accept_error_ready() {
    let op = AsyncAccept::new(3);
    assert_eq!(op.poll(Err(OsError { code: 24 })), OpPoll::Ready(Err(OsError { code: 24 })));
}

#[test]
fn write_would_block_edge_triggered() {
    let buf = [1u8, 2, 3];
    let op = AsyncWrite::new(5, &buf);
    assert_eq!(op.len, 3);
    for _ in 0..3 {
        assert_eq!(op.poll(Err(OsError { code: WOULD_BLOCK })), OpPoll::Pending(write_reg(5)));
    }
}

#[test]
fn write_count_ready() {
    let buf = [1u8, 2, 3];
    let op = AsyncWrite::new(5, &buf);
    assert_eq!(op.poll(Ok(3)), OpPoll::Ready(Ok(3)));
}

#[test]
fn write_error_ready() {
    let buf = [1u8];
    let op = AsyncWrite::new(5, &buf);
    assert_eq!(op.poll(Err(OsError { code: 32 })), OpPoll::Ready(Err(OsError { code: 32 })));
}

#[test]
fn socket_builds_operations() {
    let sock = TcpSocket::new_with_fd(21);
    assert_eq!(sock.fd, 21);
    assert_eq!(sock.accept().fd, 21);
    let buf = [0u8; 64];
    let r = sock.read(&buf);
    assert_eq!((r.fd, r.len, r.first), (21, 64, true));
    let w = sock.write(&buf, 10);
    assert_eq!((w.fd, w.len), (21, 10));
    let w = sock.write(&buf, 0);
    assert_eq!(w.len, 0);
    let w = sock.write(&buf, 64);
    assert_eq!(w.len, 64);
}

#[test]
fn interest_flag_words() {
    assert_eq!(Interest::read().epoll_bits(), 0x1);
    assert_eq!(Interest::edge_write().epoll_bits(), 0x4 | i32::MIN);
    let none = Interest { readable: false, writable: false, edge_triggered: false };
    assert_eq!(none.epoll_bits(), 0);
    let all = Interest { readable: true, writable: true, edge_triggered: true };
    assert_eq!(all.epoll_bits(), 0x5 | i32::MIN);
}
