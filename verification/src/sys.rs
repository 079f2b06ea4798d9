//! Trusted platform interface: thin wrappers around the `nix` crate's
//! safe file-descriptor calls.  Each wrapper makes one outside call and
//! converts its arguments and result; its contract is what that call's
//! source and documentation plainly promise.

use vstd::prelude::*;

use crate::duration::Duration;
use nix::errno::Errno;
use nix::fcntl::{open, OFlag};
use nix::poll::{poll, PollFd, PollFlags};
use nix::sys::stat::Mode;
use nix::sys::time::TimeSpec;
use nix::sys::timerfd::{ClockId, Expiration, TimerFd, TimerFlags, TimerSetTimeFlags};

verus! {

/// The outcome of one read from a file descriptor.
#[derive(Clone, Copy, Debug, PartialEq, Eq, Structural)]
pub enum ReadOutcome {
    /// Some bytes arrived; holds how many.
    Read(usize),
    /// The descriptor is non-blocking and has no data now.
    WouldBlock,
    /// The operating system refused; holds the errno value.
    Failed(i32),
}

/// A kernel timer backed by a file descriptor.
#[verifier::external_type_specification]
#[verifier::external_body]
pub struct ExTimerFd(TimerFd);

/// Relies on nix::fcntl::open with `O_RDONLY | O_NONBLOCK`: on success
/// the returned file descriptor is non-negative.
#[verifier::external_body]
pub(crate) fn open_read_nonblock(path: &Vec<u8>) -> (r: Result<i32, i32>)
    ensures
        r matches Ok(fd) ==> fd >= 0,
{
    match open(path.as_slice(), OFlag::O_RDONLY | OFlag::O_NONBLOCK, Mode::empty()) {
        Ok(fd) => Ok(fd),
        Err(e) => Err(e as i32),
    }
}

/// Relies on nix::fcntl::open with `O_RDWR | O_NONBLOCK`: on success the
/// returned file descriptor is non-negative.
#[verifier::external_body]
pub(crate) fn open_rdwr_nonblock(path: &Vec<u8>) -> (r: Result<i32, i32>)
    ensures
        r matches Ok(fd) ==> fd >= 0,
{
    match open(path.as_slice(), OFlag::O_RDWR | OFlag::O_NONBLOCK, Mode::empty()) {
        Ok(fd) => Ok(fd),
        Err(e) => Err(e as i32),
    }
}

/// Relies on nix::fcntl::open with `O_WRONLY`: on success the returned
/// file descriptor is non-negative.
#[verifier::external_body]
pub(crate) fn open_write(path: &Vec<u8>) -> (r: Result<i32, i32>)
    ensures
        r matches Ok(fd) ==> fd >= 0,
{
    match open(path.as_slice(), OFlag::O_WRONLY, Mode::empty()) {
        Ok(fd) => Ok(fd),
        Err(e) => Err(e as i32),
    }
}

/// Relies on nix::unistd::read: at most `buf.len()` bytes are read into
/// the front of `buf`, and the buffer keeps its length.  What the bytes
/// hold depends on the device.
#[verifier::external_body]
pub(crate) fn read_fd(fd: i32, buf: &mut Vec<u8>) -> (r: ReadOutcome)
    ensures
        final(buf)@.len() == old(buf)@.len(),
        r matches ReadOutcome::Read(n) ==> n <= old(buf)@.len(),
{
    match nix::unistd::read(fd, buf.as_mut_slice()) {
        Ok(n) => ReadOutcome::Read(n),
        Err(Errno::EWOULDBLOCK) => ReadOutcome::WouldBlock,
        Err(e) => ReadOutcome::Failed(e as i32),
    }
}

/// Relies on nix::unistd::write: on success at most `buf.len()` bytes
/// were written.
#[verifier::external_body]
pub(crate) fn write_fd(fd: i32, buf: &Vec<u8>) -> (r: Result<usize, i32>)
    ensures
        r matches Ok(n) ==> n <= buf@.len(),
{
    match nix::unistd::write(fd, buf.as_slice()) {
        Ok(n) => Ok(n),
        Err(e) => Err(e as i32),
    }
}

/// Relies on nix::unistd::close.
#[verifier::external_body]
pub(crate) fn close_fd(fd: i32) -> (r: Result<(), i32>)
{
    match nix::unistd::close(fd) {
        Ok(()) => Ok(()),
        Err(e) => Err(e as i32),
    }
}

/// Relies on nix::poll::poll with an infinite timeout: readiness is
/// reported per descriptor in order, so on success the result holds one
/// flag for each requested descriptor.
#[verifier::external_body]
pub(crate) fn poll_in(fds: &Vec<i32>) -> (r: Result<Vec<bool>, i32>)
    ensures
        r matches Ok(ready) ==> ready@.len() == fds@.len(),
{
    let mut pfds: Vec<PollFd> = fds.iter().map(|fd| PollFd::new(*fd, PollFlags::POLLIN)).collect();
    match poll(&mut pfds, -1) {
        Ok(_) => Ok(pfds.iter().map(|p| p.any().unwrap_or(false)).collect()),
        Err(e) => Err(e as i32),
    }
}

/// Relies on nix::sys::timerfd::TimerFd::new on the monotonic clock,
/// with the non-blocking and close-on-exec flags.  The raw descriptor
/// beside the timer is read from the value's Debug rendering, which nix
/// derives over the timer's single descriptor field; it is what a
/// readiness wait on the timer polls.
#[verifier::external_body]
pub(crate) fn timerfd_monotonic() -> (r: Result<(TimerFd, i32), i32>)
{
    let t = match TimerFd::new(ClockId::CLOCK_MONOTONIC, TimerFlags::TFD_NONBLOCK | TimerFlags::TFD_CLOEXEC) {
        Ok(t) => t,
        Err(e) => return Err(e as i32),
    };
    let rendered = format!("{:?}", t);
    let digits: String = rendered.chars().filter(|c| c.is_ascii_digit()).collect();
    match digits.parse::<i32>() {
        Ok(fd) => Ok((t, fd)),
        Err(_) => Err(Errno::EBADF as i32),
    }
}

/// Relies on nix::sys::timerfd::TimerFd::set with a repeating interval
/// expiration: per timerfd_settime, the new programming replaces any
/// previous one, and the timer first fires one period from now.
#[verifier::external_body]
pub(crate) fn timerfd_interval(t: &TimerFd, d: &Duration) -> (r: Result<(), i32>)
    requires
        d.wf(),
        d.secs <= i64::MAX,
{
    let spec = TimeSpec::from_duration(std::time::Duration::new(d.secs, d.nanos));
    match t.set(Expiration::Interval(spec), TimerSetTimeFlags::empty()) {
        Ok(()) => Ok(()),
        Err(e) => Err(e as i32),
    }
}

/// Relies on nix::sys::timerfd::TimerFd::set with a one-shot
/// expiration: per timerfd_settime, the new programming replaces any
/// previous one, and the timer fires once, one period from now.
#[verifier::external_body]
pub(crate) fn timerfd_oneshot(t: &TimerFd, d: &Duration) -> (r: Result<(), i32>)
    requires
        d.wf(),
        d.secs <= i64::MAX,
{
    let spec = TimeSpec::from_duration(std::time::Duration::new(d.secs, d.nanos));
    match t.set(Expiration::OneShot(spec), TimerSetTimeFlags::empty()) {
        Ok(()) => Ok(()),
        Err(e) => Err(e as i32),
    }
}

/// Relies on nix::sys::timerfd::TimerFd::unset: per timerfd_settime
/// with a zero value, the timer is disarmed and holds no programming.
#[verifier::external_body]
pub(crate) fn timerfd_disarm(t: &TimerFd) -> (r: Result<(), i32>)
{
    match t.unset() {
        Ok(()) => Ok(()),
        Err(e) => Err(e as i32),
    }
}

/// Relies on nix::sys::timerfd::TimerFd::wait: the whole backlog of
/// pending expirations is cleared by one read of the expiration count,
/// so at most one logical tick is reported per wait; on a non-blocking
/// timer with none pending, the call fails with an errno value instead
/// of blocking.
#[verifier::external_body]
pub(crate) fn timerfd_drain(t: &TimerFd) -> (r: Result<(), i32>)
{
    match t.wait() {
        Ok(()) => Ok(()),
        Err(e) => Err(e as i32),
    }
}

} // verus!
