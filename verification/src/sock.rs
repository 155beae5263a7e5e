//! Trusted wrappers around the operating-system socket calls that the
//! fast-path channels use. Each wrapper makes exactly one call into the
//! `nix` crate; nothing is promised of outcomes that depend on the
//! operating system, beyond the shape of what comes back.

use vstd::prelude::*;
use nix::sys::time::TimeValLike;

verus! {

/// What one non-blocking or blocking datagram receive produced.
pub enum RecvOutcome {
    /// One datagram of at most the requested capacity.
    Data(Vec<u8>),
    /// Nothing available right now.
    WouldBlock,
    /// A hard socket error; the descriptor is no longer usable.
    Failed,
}

/// Relies on nix's `socketpair` with the sequential-packet type: on
/// success the two descriptors are the connected ends of one channel.
#[verifier::external_body]
pub(crate) fn socketpair_seqpacket() -> (r: Option<(i32, i32)>) {
    match nix::sys::socket::socketpair(
        nix::sys::socket::AddressFamily::Unix,
        nix::sys::socket::SockType::SeqPacket,
        None,
        nix::sys::socket::SockFlag::SOCK_CLOEXEC,
    ) {
        Ok(p) => Some(p),
        Err(_) => None,
    }
}

/// Relies on nix's `send` with the end-of-record flag: one call sends
/// one whole datagram. Returns whether the send succeeded.
#[verifier::external_body]
pub(crate) fn send_datagram(fd: i32, data: &[u8]) -> (r: bool) {
    nix::sys::socket::send(fd, data, nix::sys::socket::MsgFlags::MSG_EOR).is_ok()
}

/// Relies on nix's `recv` with the don't-wait flag: receives at most one
/// datagram of at most `cap` bytes without blocking.
#[verifier::external_body]
pub(crate) fn recv_datagram_nonblocking(fd: i32, cap: usize) -> (r: RecvOutcome)
    ensures
        r matches RecvOutcome::Data(v) ==> v@.len() <= cap,
{
    let mut buf = vec![0u8; cap];
    match nix::sys::socket::recv(fd, &mut buf, nix::sys::socket::MsgFlags::MSG_DONTWAIT) {
        Ok(n) => {
            buf.truncate(n);
            RecvOutcome::Data(buf)
        },
        Err(nix::errno::Errno::EAGAIN) => RecvOutcome::WouldBlock,
        Err(_) => RecvOutcome::Failed,
    }
}

/// Relies on nix's `recv` without flags: blocks until a datagram of at
/// most `cap` bytes arrives, the receive timeout elapses, or the socket
/// fails.
#[verifier::external_body]
pub(crate) fn recv_datagram_blocking(fd: i32, cap: usize) -> (r: RecvOutcome)
    ensures
        r matches RecvOutcome::Data(v) ==> v@.len() <= cap,
{
    let mut buf = vec![0u8; cap];
    match nix::sys::socket::recv(fd, &mut buf, nix::sys::socket::MsgFlags::empty()) {
        Ok(n) => {
            buf.truncate(n);
            RecvOutcome::Data(buf)
        },
        Err(nix::errno::Errno::EAGAIN) => RecvOutcome::WouldBlock,
        Err(_) => RecvOutcome::Failed,
    }
}

/// Relies on nix's `setsockopt` with the receive-timeout option; a
/// zero timeout means no timeout. Returns whether the option was
/// applied. The bound keeps the microsecond count inside the range
/// whose second count nix's `TimeVal` accepts on a target with 64-bit
/// time values; outside it, nix panics. On a target with narrower time
/// values nix's ceiling is lower and this bound would have to shrink
/// with it.
#[verifier::external_body]
pub(crate) fn set_recv_timeout(fd: i32, micros: i64) -> (r: bool)
    requires
        0 <= micros <= 9_223_372_036_853_999_999,
{
    let tv = nix::sys::time::TimeVal::microseconds(micros);
    nix::sys::socket::setsockopt(fd, nix::sys::socket::sockopt::ReceiveTimeout, &tv).is_ok()
}

/// Relies on nix's `close`: releases the descriptor; errors are ignored,
/// as the descriptor is gone either way.
#[verifier::external_body]
pub(crate) fn close_fd(fd: i32) {
    nix::unistd::close(fd).ok();
}

} // verus!
