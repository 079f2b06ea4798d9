//! The interval timer abstraction over its two backends: the kernel's
//! repeating monotonic timer, and the hardware real-time-clock wake
//! alarm for configurations that suspend to RAM.

use vstd::prelude::*;

use crate::duration::Duration;
use crate::rtc;
use crate::rtc::{RtcAlarm, RtcClock};
use crate::sys;

verus! {

/// What can go wrong around timers.
#[derive(Clone, Copy, Debug)]
pub enum Error {
    /// The clock backend failed.
    Rtc(rtc::Error),
    /// A kernel timer call failed; holds the errno value.
    Fd(i32),
}

/// One operation on a timer's hardware programming.
#[derive(Clone, Copy, Debug, PartialEq, Eq, Structural)]
pub enum TimerOp {
    /// Arming for a period.
    Arm { secs: u64, nanos: u32 },
    /// Disarming.
    Disarm,
}

/// The programming a timer holds after a history of operations: per
/// timerfd_settime, each operation replaces whatever came before, so
/// only the last one stands.
pub open spec fn programming_after(ops: Seq<TimerOp>) -> Option<(u64, u32)> {
    if ops.len() == 0 {
        None
    } else {
        match ops.last() {
            TimerOp::Arm { secs, nanos } => Some((secs, nanos)),
            TimerOp::Disarm => None,
        }
    }
}

/// Alarm disarm law: after any two histories, freshly armed timers hold
/// the same programming, exactly the fresh period.  No residual
/// programming leaks from one alarm to the next, so a fresh alarm does
/// not fire earlier than its own configured duration.
pub proof fn lemma_alarm_disarm(h1: Seq<TimerOp>, h2: Seq<TimerOp>, secs: u64, nanos: u32)
    ensures
        programming_after(h1.push(TimerOp::Arm { secs, nanos })) == Some((secs, nanos)),
        programming_after(h1.push(TimerOp::Arm { secs, nanos })) == programming_after(
            h2.push(TimerOp::Arm { secs, nanos }),
        ),
        programming_after(h1.push(TimerOp::Disarm)) is None,
{
}

/// The timer backend: selected once at construction, depending on
/// whether a suspend-capable wakeup was requested.
enum TimerImpl {
    /// A kernel repeating timer and its raw descriptor.
    Fd(nix::sys::timerfd::TimerFd, i32),
    /// The hardware clock's one-shot wake alarm.
    Rtc(RtcClock),
}

/// An interval timer with one of two interchangeable backends.
pub struct Timer {
    timer: TimerImpl,
}

/// The armed-alarm backing: a borrow of the kernel timer, or the
/// handle on the clock's wake alarm.
enum AlarmImpl<'a> {
    Fd(&'a nix::sys::timerfd::TimerFd, i32),
    Rtc(RtcAlarm),
}

/// A scoped handle to one currently armed timer or alarm.  Arming
/// replaces any previous programming; releasing the handle through
/// `unset` disarms it.
pub struct Alarm<'a> {
    alarm: AlarmImpl<'a>,
    period: Ghost<Duration>,
}

impl Timer {
    /// Whether this timer runs on the kernel backend.
    pub closed spec fn is_monotonic(self) -> bool {
        self.timer is Fd
    }

    /// The descriptor a readiness wait polls for this timer.
    pub closed spec fn spec_fd(self) -> i32 {
        match self.timer {
            TimerImpl::Fd(_, fd) => fd,
            TimerImpl::Rtc(c) => c.spec_fd(),
        }
    }

    /// Whether the clock backend interprets hardware time as UTC.
    pub closed spec fn clock_is_utc(self) -> bool {
        match self.timer {
            TimerImpl::Fd(_, _) => false,
            TimerImpl::Rtc(c) => c.is_utc(),
        }
    }

    /// A timer on the kernel's monotonic clock, non-blocking.
    pub fn monotonic() -> (r: Result<Timer, Error>)
        ensures
            r matches Ok(t) ==> t.is_monotonic(),
    {
        match sys::timerfd_monotonic() {
            Ok((t, fd)) => Ok(Timer { timer: TimerImpl::Fd(t, fd) }),
            Err(e) => Err(Error::Fd(e)),
        }
    }

    /// A timer on the hardware clock's wake alarm, for wakeups that
    /// must survive suspend to RAM.
    pub fn realtime_alarm(path: &Vec<u8>) -> (r: Result<Timer, Error>)
        ensures
            r matches Ok(t) ==> !t.is_monotonic(),
    {
        match RtcClock::new(path) {
            Ok(c) => Ok(Timer { timer: TimerImpl::Rtc(c) }),
            Err(e) => Err(Error::Rtc(e)),
        }
    }

    /// The clock of the hardware-alarm backend, through which its
    /// owner programs and clears the wake alarm.
    pub fn rtc_clock(&self) -> (c: Option<&RtcClock>)
        ensures
            match c {
                Some(c) => !self.is_monotonic() && c.spec_fd() == self.spec_fd() && c.is_utc()
                    == self.clock_is_utc(),
                None => self.is_monotonic(),
            },
    {
        match &self.timer {
            TimerImpl::Fd(_, _) => None,
            TimerImpl::Rtc(c) => Some(c),
        }
    }

    /// Arms the kernel backend to fire every `duration`, first one
    /// period from now, replacing any previous programming, and hands
    /// back the scoped alarm.  The hardware-alarm backend is armed by
    /// its owner through the clock instead.
    pub fn set(&self, duration: &Duration) -> (r: Result<Alarm<'_>, Error>)
        requires
            self.is_monotonic(),
            duration.wf(),
            duration.secs <= i64::MAX,
        ensures
            r matches Ok(a) ==> {
                &&& a.is_kernel()
                &&& a.spec_fd() == self.spec_fd()
                &&& a.period() == *duration
            },
            r matches Err(e) ==> e is Fd,
    {
        match &self.timer {
            TimerImpl::Fd(t, fd) => {
                match sys::timerfd_interval(t, duration) {
                    Ok(()) => Ok(
                        Alarm { alarm: AlarmImpl::Fd(t, *fd), period: Ghost(*duration) },
                    ),
                    Err(e) => Err(Error::Fd(e)),
                }
            },
            TimerImpl::Rtc(_) => {
                proof {
                    assert(false);
                }
                Err(Error::Fd(0))
            },
        }
    }

}

impl<'a> Alarm<'a> {
    /// The scoped alarm handle for a hardware wake alarm its owner has
    /// just programmed on `clock` for `duration`.
    pub fn armed_rtc(clock: &RtcClock, duration: &Duration) -> (r: Alarm<'static>)
        ensures
            !r.is_kernel(),
            r.spec_fd() == clock.spec_fd(),
            r.period() == *duration,
    {
        Alarm { alarm: AlarmImpl::Rtc(clock.alarm()), period: Ghost(*duration) }
    }

    /// Whether the alarm rides the kernel timer backend.
    pub closed spec fn is_kernel(self) -> bool {
        self.alarm is Fd
    }

    /// The descriptor whose readiness announces the alarm.
    pub closed spec fn spec_fd(self) -> i32 {
        match self.alarm {
            AlarmImpl::Fd(_, fd) => fd,
            AlarmImpl::Rtc(a) => a.spec_fd(),
        }
    }

    /// The period this alarm was armed with.
    pub closed spec fn period(self) -> Duration {
        self.period@
    }

    /// The raw descriptor, for the readiness wait set.
    pub fn as_raw_fd(&self) -> (fd: i32)
        ensures
            fd == self.spec_fd(),
    {
        match &self.alarm {
            AlarmImpl::Fd(_, fd) => *fd,
            AlarmImpl::Rtc(a) => a.as_raw_fd(),
        }
    }

    /// Consumes a firing of the alarm: the kernel timer's pending
    /// expirations, or the clock's alarm-fired interrupt.  A failure
    /// carries the variant of the alarm's own backend.
    pub fn wait(&self) -> (r: Result<(), Error>)
        ensures
            r matches Err(e) ==> (if self.is_kernel() {
                e is Fd
            } else {
                e is Rtc
            }),
    {
        match &self.alarm {
            AlarmImpl::Fd(t, _) => {
                match sys::timerfd_drain(t) {
                    Ok(()) => Ok(()),
                    Err(e) => Err(Error::Fd(e)),
                }
            },
            AlarmImpl::Rtc(a) => {
                match a.wait() {
                    Ok(()) => Ok(()),
                    Err(e) => Err(Error::Rtc(e)),
                }
            },
        }
    }

    /// Disarms the kernel timer, leaving no programming behind.  A
    /// hardware wake alarm is cleared by its owner writing back the
    /// disarmed alarm record instead.
    pub fn unset(&self) -> (r: Result<(), Error>)
        requires
            self.is_kernel(),
        ensures
            r matches Err(e) ==> e is Fd,
    {
        match &self.alarm {
            AlarmImpl::Fd(t, _) => {
                match sys::timerfd_disarm(t) {
                    Ok(()) => Ok(()),
                    Err(e) => Err(Error::Fd(e)),
                }
            },
            AlarmImpl::Rtc(_) => {
                proof {
                    assert(false);
                }
                Ok(())
            },
        }
    }
}

} // verus!
