//! The hardware real-time-clock driver: record types, clock-mode
//! detection, time conversion and the one-shot wake alarm.

use vstd::prelude::*;

use crate::cal;
use crate::sys;
use crate::sys::ReadOutcome;
use vstd::string::{StrSliceExecFns, StringSliceAdditionalSpecFns};

verus! {

/// Bit of the interrupt-status word that reports a fired alarm.
pub const RTC_AF: u8 = 0x20;

/// What can go wrong around the clock.
#[derive(Clone, Copy, Debug)]
pub enum Error {
    /// The clock device refused an operation; holds the errno value.
    ClockError(i32),
    /// The clock device could not be opened or read; holds the errno
    /// value, or zero for a short status read.
    RtcDeviceError(i32),
    /// The wakeup-capability attribute could not be read; holds the
    /// errno value.
    SysFsError(i32),
    /// A timestamp conversion failed or left the covered range.
    TzError,
    /// The device's power-management attribute reports no wakeup
    /// support.
    WakeupNotSupported,
    /// The clock runs on local time, but no local timezone was found.
    UnknownLocalTimezone,
    /// The hardware time has no valid calendar interpretation.
    InvalidRTCTime,
}

/// The hardware broken-down time record: month counted from zero, year
/// counted from 1900, the last three fields unused.
#[allow(non_camel_case_types)]
#[derive(Clone, Copy, Debug, PartialEq, Eq, Structural)]
pub struct rtc_time {
    pub tm_sec: i32,
    pub tm_min: i32,
    pub tm_hour: i32,
    pub tm_mday: i32,
    pub tm_mon: i32,
    pub tm_year: i32,
    pub tm_wday: i32,
    pub tm_yday: i32,
    pub tm_isdst: i32,
}

impl rtc_time {
    /// Whether the record names a covered calendar date and time.
    pub open spec fn valid(self) -> bool {
        cal::valid_civil(
            self.tm_year + 1900,
            self.tm_mon + 1,
            self.tm_mday as int,
            self.tm_hour as int,
            self.tm_min as int,
            self.tm_sec as int,
        )
    }

    /// Whether every field lies in the plain ranges the hardware
    /// record format allows: year within the covered span, month 0-11,
    /// day of month 1-31, hours 0-23, minutes and seconds 0-59.  A
    /// record outside them is rejected before any conversion.
    pub open spec fn fields_in_range(self) -> bool {
        &&& 1900 <= self.tm_year + 1900 < 2100
        &&& 0 <= self.tm_mon <= 11
        &&& 1 <= self.tm_mday <= 31
        &&& 0 <= self.tm_hour <= 23
        &&& 0 <= self.tm_min <= 59
        &&& 0 <= self.tm_sec <= 59
    }

    /// The Unix instant the record names.
    pub open spec fn instant(self) -> int {
        cal::spec_unix_time(
            self.tm_year + 1900,
            self.tm_mon + 1,
            self.tm_mday as int,
            self.tm_hour as int,
            self.tm_min as int,
            self.tm_sec as int,
        )
    }
}

/// The hardware wake-alarm record.
#[allow(non_camel_case_types)]
#[derive(Clone, Copy, Debug, PartialEq, Eq, Structural)]
pub struct rtc_wkalrm {
    pub enabled: u8,
    pub pending: u8,
    pub time: rtc_time,
}

impl rtc_wkalrm {
    /// An armed one-shot alarm record for the given wakeup time.
    pub fn armed(time: rtc_time) -> (r: rtc_wkalrm)
        ensures
            r.enabled == 1,
            r.pending == 0,
            r.time == time,
    {
        rtc_wkalrm { enabled: 1, pending: 0, time }
    }

    /// The same record with its enabled flag cleared: what writing it
    /// back leaves programmed after a disarm.
    pub fn disarmed(self) -> (r: rtc_wkalrm)
        ensures
            r.enabled == 0,
            r.pending == self.pending,
            r.time == self.time,
    {
        rtc_wkalrm { enabled: 0, pending: self.pending, time: self.time }
    }
}

/// The interrupt-status word read little-endian out of eight bytes.
pub open spec fn spec_word_of(b: Seq<u8>) -> u64
    recommends
        b.len() >= 8,
{
    (b[0] as u64) | ((b[1] as u64) << 8) | ((b[2] as u64) << 16) | ((b[3] as u64) << 24) | (
    (b[4] as u64) << 32) | ((b[5] as u64) << 40) | ((b[6] as u64) << 48) | ((b[7] as u64) << 56)
}

/// Reads the status word, exactly as `spec_word_of` does.
fn word_of(b: &Vec<u8>) -> (w: u64)
    requires
        b@.len() >= 8,
    ensures
        w == spec_word_of(b@),
{
    (b[0] as u64) | ((b[1] as u64) << 8) | ((b[2] as u64) << 16) | ((b[3] as u64) << 24) | (
    (b[4] as u64) << 32) | ((b[5] as u64) << 40) | ((b[6] as u64) << 48) | ((b[7] as u64) << 56)
}

/// Whether the interrupt-status word reports a fired alarm; all other
/// bits are foreign interrupts and say nothing.
pub fn alarm_fired(word: u64) -> (r: bool)
    ensures
        r <==> word & (RTC_AF as u64) != 0,
{
    word & (RTC_AF as u64) != 0
}

/// How the hardware clock's time is to be interpreted.
#[derive(Clone, Copy, Debug, PartialEq, Eq, Structural)]
pub enum RealTimeClockMode {
    Utc,
    Local,
}

/// The index of the first newline at or after `from`, or the length.
pub open spec fn nl_after(b: Seq<u8>, from: int) -> int
    recommends
        0 <= from,
    decreases b.len() - from,
{
    if from >= b.len() {
        b.len() as int
    } else if b[from] == '\n' as u8 {
        from
    } else {
        nl_after(b, from + 1)
    }
}

/// Skipping over bytes that are no newline leaves the answer unchanged.
proof fn lemma_nl_skip(b: Seq<u8>, from: int, to: int)
    requires
        0 <= from <= to <= b.len(),
        forall|j: int| from <= j < to ==> b[j] != '\n' as u8,
    ensures
        nl_after(b, from) == nl_after(b, to),
    decreases to - from,
{
    if from < to {
        lemma_nl_skip(b, from + 1, to);
    }
}

/// The answer lies between `from` and the length, on a newline if
/// within range.
proof fn lemma_nl_bounds(b: Seq<u8>, from: int)
    requires
        0 <= from,
    ensures
        nl_after(b, from) <= b.len(),
        from <= b.len() ==> from <= nl_after(b, from),
        nl_after(b, from) < b.len() ==> b[nl_after(b, from)] == '\n' as u8,
    decreases b.len() - from,
{
    if from < b.len() && b[from] != '\n' as u8 {
        lemma_nl_bounds(b, from + 1);
    }
}

/// The index of the first newline at or after `from`.
fn find_nl(b: &Vec<u8>, from: usize) -> (r: usize)
    requires
        from <= b@.len(),
    ensures
        r == nl_after(b@, from as int),
        from <= r <= b@.len(),
    {
    let n = b.len();
    let mut i: usize = from;
    while i < n
        invariant
            from <= i <= n == b@.len(),
            forall|j: int| from <= j < i ==> b@[j] != '\n' as u8,
        decreases n - i,
    {
        if b[i] == 10 {
            proof {
                lemma_nl_skip(b@, from as int, i as int);
            }
            return i;
        }
        i = i + 1;
    }
    proof {
        lemma_nl_skip(b@, from as int, n as int);
    }
    n
}

/// The third line of the text, if it has one, with a trailing carriage
/// return stripped.
pub open spec fn spec_third_line(b: Seq<u8>) -> Option<Seq<u8>> {
    let i1 = nl_after(b, 0);
    let i2 = nl_after(b, i1 + 1);
    if i2 >= b.len() {
        None
    } else {
        let i3 = nl_after(b, i2 + 1);
        let line = b.subrange(i2 + 1, i3);
        if line.len() > 0 && line.last() == '\r' as u8 {
            Some(line.drop_last())
        } else {
            Some(line)
        }
    }
}

/// The clock mode a clock-configuration text names: its third line is
/// exactly `UTC` or `LOCAL`; any other content, or a missing third
/// line, defaults to UTC.
pub open spec fn spec_clock_mode(b: Seq<u8>) -> RealTimeClockMode {
    match spec_third_line(b) {
        Some(line) => {
            if line =~= seq!['U' as u8, 'T' as u8, 'C' as u8] {
                RealTimeClockMode::Utc
            } else if line =~= seq![
                'L' as u8,
                'O' as u8,
                'C' as u8,
                'A' as u8,
                'L' as u8,
            ] {
                RealTimeClockMode::Local
            } else {
                RealTimeClockMode::Utc
            }
        },
        None => RealTimeClockMode::Utc,
    }
}

/// Reads the clock mode out of clock-configuration text, exactly as
/// `spec_clock_mode` does.
pub fn clock_mode_from_bytes(b: &Vec<u8>) -> (m: RealTimeClockMode)
    ensures
        m == spec_clock_mode(b@),
{
    let n = b.len();
    let i1 = find_nl(b, 0);
    let start2 = if i1 < n {
        i1 + 1
    } else {
        n
    };
    proof {
        if i1 >= n {
            lemma_nl_bounds(b@, i1 + 1);
            assert(nl_after(b@, i1 as int + 1) >= b@.len());
            assert(nl_after(b@, i1 as int + 1) == nl_after(b@, start2 as int)) by {
                assert(i1 == n);
            }
        }
    }
    let i2 = if start2 < n {
        find_nl(b, start2)
    } else {
        n
    };
    proof {
        if start2 >= n {
            lemma_nl_bounds(b@, i1 as int + 1);
        }
        assert(i2 == nl_after(b@, i1 as int + 1) || i2 >= n);
    }
    if i2 >= n {
        proof {
            lemma_nl_bounds(b@, i1 as int + 1);
        }
        return RealTimeClockMode::Utc;
    }
    let start3 = i2 + 1;
    let i3 = find_nl(b, start3);
    let end = if i3 > start3 && b[i3 - 1] == 13 {
        i3 - 1
    } else {
        i3
    };
    let len = end - start3;
    let ghost line = b@.subrange(i2 as int + 1, i3 as int);
    let ghost tl = spec_third_line(b@).unwrap();
    proof {
        if i3 > start3 && b@[i3 - 1] == '\r' as u8 {
            assert(line.len() > 0 && line.last() == '\r' as u8);
            assert(tl =~= b@.subrange(start3 as int, end as int));
        } else {
            if line.len() > 0 {
                assert(line.last() == b@[i3 - 1]);
            }
            assert(tl =~= b@.subrange(start3 as int, end as int));
        }
    }
    if len == 3 && b[start3] == 85 && b[start3 + 1] == 84 && b[start3 + 2] == 67 {
        proof {
            assert(tl =~= seq!['U' as u8, 'T' as u8, 'C' as u8]);
        }
        RealTimeClockMode::Utc
    } else if len == 5 && b[start3] == 76 && b[start3 + 1] == 79 && b[start3 + 2] == 67 && b[start3
        + 3] == 65 && b[start3 + 4] == 76 {
        proof {
            assert(tl =~= seq!['L' as u8, 'O' as u8, 'C' as u8, 'A' as u8, 'L' as u8]);
            assert(!(tl =~= seq!['U' as u8, 'T' as u8, 'C' as u8]));
        }
        RealTimeClockMode::Local
    } else {
        proof {
            assert(!(tl =~= seq!['U' as u8, 'T' as u8, 'C' as u8]) && !(tl =~= seq![
                'L' as u8,
                'O' as u8,
                'C' as u8,
                'A' as u8,
                'L' as u8,
            ])) by {
                if tl.len() == 3 {
                    assert(tl[0] == b@[start3 as int]);
                    assert(tl[1] == b@[start3 as int + 1]);
                    assert(tl[2] == b@[start3 as int + 2]);
                }
                if tl.len() == 5 {
                    assert(tl[0] == b@[start3 as int]);
                    assert(tl[1] == b@[start3 as int + 1]);
                    assert(tl[2] == b@[start3 as int + 2]);
                    assert(tl[3] == b@[start3 as int + 3]);
                    assert(tl[4] == b@[start3 as int + 4]);
                }
            }
        }
        RealTimeClockMode::Utc
    }
}

/// An ASCII whitespace byte, as trimming strips it.
pub open spec fn is_space(c: u8) -> bool {
    c == 32 || (9 <= c <= 13)
}

/// The index of the first non-whitespace byte at or after `from`, or
/// the length.
pub open spec fn sp_start(b: Seq<u8>, from: int) -> int
    recommends
        0 <= from,
    decreases b.len() - from,
{
    if from >= b.len() {
        b.len() as int
    } else if is_space(b[from]) {
        sp_start(b, from + 1)
    } else {
        from
    }
}

/// The index just past the last non-whitespace byte below `upto`.
pub open spec fn sp_end(b: Seq<u8>, upto: int) -> int
    decreases upto,
{
    if upto <= 0 {
        0
    } else if is_space(b[upto - 1]) {
        sp_end(b, upto - 1)
    } else {
        upto
    }
}

/// The text with leading and trailing ASCII whitespace stripped.
pub open spec fn spec_trimmed(b: Seq<u8>) -> Seq<u8> {
    let s = sp_start(b, 0);
    let e = sp_end(b, b.len() as int);
    if s >= e {
        Seq::empty()
    } else {
        b.subrange(s, e)
    }
}

/// Skipping whitespace leaves the start answer unchanged.
proof fn lemma_sp_start_skip(b: Seq<u8>, from: int, to: int)
    requires
        0 <= from <= to <= b.len(),
        forall|j: int| from <= j < to ==> is_space(#[trigger] b[j]),
    ensures
        sp_start(b, from) == sp_start(b, to),
    decreases to - from,
{
    if from < to {
        lemma_sp_start_skip(b, from + 1, to);
    }
}

/// Skipping whitespace leaves the end answer unchanged.
proof fn lemma_sp_end_skip(b: Seq<u8>, upto: int, to: int)
    requires
        0 <= to <= upto <= b.len(),
        forall|j: int| to <= j < upto ==> is_space(#[trigger] b[j]),
    ensures
        sp_end(b, upto) == sp_end(b, to),
    decreases upto - to,
{
    if to < upto {
        lemma_sp_end_skip(b, upto - 1, to);
    }
}

/// The start answer lies in range and on a non-space when within it.
proof fn lemma_sp_start_bounds(b: Seq<u8>, from: int)
    requires
        0 <= from,
    ensures
        sp_start(b, from) <= b.len(),
        from <= b.len() ==> from <= sp_start(b, from),
        sp_start(b, from) < b.len() ==> !is_space(b[sp_start(b, from)]),
    decreases b.len() - from,
{
    if from < b.len() && is_space(b[from]) {
        lemma_sp_start_bounds(b, from + 1);
    }
}

/// The end answer lies in range and just past a non-space when positive.
proof fn lemma_sp_end_bounds(b: Seq<u8>, upto: int)
    requires
        upto <= b.len(),
    ensures
        0 <= upto ==> 0 <= sp_end(b, upto) <= upto,
        0 < sp_end(b, upto) ==> !is_space(b[sp_end(b, upto) - 1]),
    decreases upto,
{
    if 0 < upto && is_space(b[upto - 1]) {
        lemma_sp_end_bounds(b, upto - 1);
    }
}

/// Whether a wakeup-capability text reports support: its content,
/// stripped of surrounding whitespace, is exactly `enabled`.
pub fn wakeup_reports_enabled(b: &Vec<u8>) -> (r: bool)
    ensures
        r <==> spec_trimmed(b@) == "enabled".spec_bytes(),
{
    let pat = "enabled".as_bytes_vec();
    let n = b.len();
    let mut s: usize = 0;
    while s < n && (b[s] == 32 || (9 <= b[s] && b[s] <= 13))
        invariant
            s <= n == b@.len(),
            forall|j: int| 0 <= j < s ==> is_space(#[trigger] b@[j]),
        decreases n - s,
    {
        s = s + 1;
    }
    proof {
        lemma_sp_start_skip(b@, 0, s as int);
        if s < n {
            assert(sp_start(b@, s as int) == s);
        }
    }
    let mut e: usize = n;
    while e > s && (b[e - 1] == 32 || (9 <= b[e - 1] && b[e - 1] <= 13))
        invariant
            s <= e <= n == b@.len(),
            forall|j: int| e <= j < n ==> is_space(#[trigger] b@[j]),
        decreases e,
    {
        e = e - 1;
    }
    proof {
        lemma_sp_end_skip(b@, n as int, e as int);
        lemma_sp_start_bounds(b@, 0);
        lemma_sp_end_bounds(b@, e as int);
    }
    if s >= e {
        proof {
            assert(sp_end(b@, e as int) <= e);
            assert(spec_trimmed(b@) =~= Seq::<u8>::empty());
        }
        if pat.len() == 0 {
            proof {
                assert(pat@ =~= Seq::<u8>::empty());
            }
            return true;
        }
        return false;
    }
    proof {
        assert(!is_space(b@[e - 1]));
        assert(sp_end(b@, e as int) == e);
        assert(spec_trimmed(b@) =~= b@.subrange(s as int, e as int));
    }
    let len = e - s;
    if len != pat.len() {
        return false;
    }
    let mut i: usize = 0;
    while i < len
        invariant
            i <= len == e - s,
            s < e <= b@.len(),
            len == pat@.len(),
            spec_trimmed(b@) == b@.subrange(s as int, e as int),
            pat@ == "enabled".spec_bytes(),
            forall|j: int| 0 <= j < i ==> b@[s + j] == pat@[j],
        decreases len - i,
    {
        if b[s + i] != pat[i] {
            return false;
        }
        i = i + 1;
    }
    proof {
        assert(b@.subrange(s as int, e as int) =~= pat@);
    }
    true
}

/// The index of the byte after the last slash below `upto`, or zero.
pub open spec fn bstart(b: Seq<u8>, upto: int) -> int
    decreases upto,
{
    if upto <= 0 {
        0
    } else if b[upto - 1] == '/' as u8 {
        upto
    } else {
        bstart(b, upto - 1)
    }
}

/// The final path component: everything after the last slash.
pub open spec fn spec_basename(b: Seq<u8>) -> Seq<u8> {
    b.subrange(bstart(b, b.len() as int), b.len() as int)
}

/// Scanning back over non-slashes leaves the answer unchanged.
proof fn lemma_bstart_skip(b: Seq<u8>, upto: int, to: int)
    requires
        0 <= to <= upto <= b.len(),
        forall|j: int| to <= j < upto ==> b[j] != '/' as u8,
    ensures
        bstart(b, upto) == bstart(b, to),
    decreases upto - to,
{
    if to < upto {
        lemma_bstart_skip(b, upto - 1, to);
    }
}

/// The answer lies in range.
proof fn lemma_bstart_bounds(b: Seq<u8>, upto: int)
    ensures
        bstart(b, upto) <= upto || upto < 0,
        0 <= bstart(b, upto),
    decreases upto,
{
    if upto > 0 && b[upto - 1] != '/' as u8 {
        lemma_bstart_bounds(b, upto - 1);
    }
}

/// The sysfs path of a clock device's wakeup-capability attribute, or
/// nothing when the device path has an empty final component.
pub fn wakeup_path_for(path: &Vec<u8>) -> (r: Option<Vec<u8>>)
    ensures
        match r {
            Some(v) => spec_basename(path@).len() > 0 && v@ == "/sys/class/rtc/".spec_bytes()
                + spec_basename(path@) + "/device/power/wakeup".spec_bytes(),
            None => spec_basename(path@).len() == 0,
        },
{
    let n = path.len();
    let mut start: usize = n;
    while start > 0 && path[start - 1] != 47
        invariant
            start <= n == path@.len(),
            forall|j: int| start <= j < n ==> path@[j] != '/' as u8,
        decreases start,
    {
        start = start - 1;
    }
    proof {
        lemma_bstart_skip(path@, n as int, start as int);
        lemma_bstart_bounds(path@, start as int);
        if start > 0 {
            assert(bstart(path@, start as int) == start);
        }
        assert(bstart(path@, n as int) == start);
    }
    if start >= n {
        return None;
    }
    let mut v = "/sys/class/rtc/".as_bytes_vec();
    let ghost prefix = "/sys/class/rtc/".spec_bytes();
    let mut i: usize = start;
    while i < n
        invariant
            start <= i <= n == path@.len(),
            v@ == prefix + path@.subrange(start as int, i as int),
        decreases n - i,
    {
        v.push(path[i]);
        proof {
            assert(v@ =~= prefix + path@.subrange(start as int, i + 1));
        }
        i = i + 1;
    }
    let suf = "/device/power/wakeup".as_bytes_vec();
    let m = suf.len();
    let mut j: usize = 0;
    while j < m
        invariant
            j <= m == suf@.len(),
            v@ == prefix + path@.subrange(start as int, path@.len() as int) + suf@.subrange(
                0,
                j as int,
            ),
        decreases m - j,
    {
        v.push(suf[j]);
        proof {
            assert(v@ =~= prefix + path@.subrange(start as int, path@.len() as int)
                + suf@.subrange(0, j + 1));
        }
        j = j + 1;
    }
    proof {
        assert(suf@.subrange(0, m as int) =~= suf@);
        assert(v@ =~= prefix + spec_basename(path@) + "/device/power/wakeup".spec_bytes());
    }
    Some(v)
}

/// How many bytes one whole-file read accepts at most.
pub const FILE_READ_CAP: usize = 65536;

/// Reads a small file whole: what the configuration files hold.
fn read_file(path: &Vec<u8>) -> (r: Result<Vec<u8>, i32>)
    ensures
        r matches Ok(v) ==> v@.len() <= FILE_READ_CAP,
{
    let fd = match sys::open_read_nonblock(path) {
        Ok(fd) => fd,
        Err(e) => {
            return Err(e);
        },
    };
    let mut out: Vec<u8> = Vec::new();
    let mut rounds: usize = 64;
    while rounds > 0
        invariant
            out@.len() <= (64 - rounds) * 1024,
            rounds <= 64,
        decreases rounds,
    {
        let mut chunk = crate::bitset::zeroed_vec(1024);
        match sys::read_fd(fd, &mut chunk) {
            ReadOutcome::Read(got) => {
                if got == 0 {
                    let _ = sys::close_fd(fd);
                    return Ok(out);
                }
                let mut k: usize = 0;
                while k < got
                    invariant
                        k <= got <= chunk@.len(),
                        out@.len() <= (64 - rounds) * 1024 + k,
                        rounds >= 1,
                        chunk@.len() == 1024,
                    decreases got - k,
                {
                    out.push(chunk[k]);
                    k = k + 1;
                }
            },
            ReadOutcome::WouldBlock => {
                let _ = sys::close_fd(fd);
                return Err(11);
            },
            ReadOutcome::Failed(e) => {
                let _ = sys::close_fd(fd);
                return Err(e);
            },
        }
        rounds = rounds - 1;
    }
    let _ = sys::close_fd(fd);
    Ok(out)
}

impl RealTimeClockMode {
    /// Detects the clock mode from the system clock-configuration file
    /// `/etc/adjtime`; unreadable or malformed content defaults to UTC,
    /// never an error.
    pub fn detect() -> (m: RealTimeClockMode) {
        let path = "/etc/adjtime".as_bytes_vec();
        match read_file(&path) {
            Ok(b) => clock_mode_from_bytes(&b),
            Err(_) => RealTimeClockMode::Utc,
        }
    }
}

/// A resolved time zone of the bundled timezone database.
#[verifier::external_type_specification]
#[verifier::external_body]
pub struct ExTimeZoneRef<'a>(tz::timezone::TimeZoneRef<'a>);

/// Relies on tzdb::local_tz: the system's configured time zone, if it
/// is known to the bundled database.
#[verifier::external_body]
fn local_tz() -> (r: Option<tz::timezone::TimeZoneRef<'static>>) {
    tzdb::local_tz()
}

/// Relies on tz::DateTime::find and FoundDateTimeList::earliest and
/// DateTime::unix_time: the instant of the earliest interpretation of
/// a local civil time in the zone; for a local time the zone skips,
/// the instant just before the forward transition; none when no local
/// time type was found at all; an error when the fields name no date
/// or the conversion leaves the representable range.
#[verifier::external_body]
fn find_earliest_unix(
    zone: tz::timezone::TimeZoneRef<'_>,
    y: i32,
    mon: u8,
    day: u8,
    h: u8,
    mi: u8,
    s: u8,
) -> (r: Result<Option<i64>, ()>) {
    match tz::datetime::DateTime::find(y, mon, day, h, mi, s, 0, zone) {
        Ok(list) => Ok(list.earliest().map(|dt| dt.unix_time())),
        Err(_) => Err(()),
    }
}

/// Relies on TimeZoneRef::find_local_time_type and
/// LocalTimeType::ut_offset: the zone's UTC offset in force at the
/// instant, in seconds.
#[verifier::external_body]
fn ut_offset_at(zone: tz::timezone::TimeZoneRef<'_>, t: i64) -> (r: Result<i32, ()>) {
    match zone.find_local_time_type(t) {
        Ok(l) => Ok(l.ut_offset()),
        Err(_) => Err(()),
    }
}

/// The errno value a non-blocking read reports when no data waits.
const ERRNO_AGAIN: i32 = 11;


/// The hardware time fields to program for a wakeup `duration_secs`
/// after `now`, on a clock that keeps UTC: succeeds exactly when `now`
/// is a covered calendar time, the span fits a signed count of
/// seconds, and the target stays in the covered range; the returned
/// fields then name the instant of `now` plus the span, with the
/// unused fields set to minus one.
pub fn utc_wakeup_fields(now: rtc_time, duration_secs: u64) -> (r: Result<rtc_time, Error>)
    ensures
        (r is Ok) <==> (now.valid() && duration_secs <= i64::MAX && cal::MIN_UNIX_TIME
            <= now.instant() + duration_secs < cal::MAX_UNIX_TIME),
        r matches Ok(w) ==> {
            &&& w.valid()
            &&& w.instant() == now.instant() + duration_secs
            &&& w.tm_wday == -1 && w.tm_yday == -1 && w.tm_isdst == -1
        },
        !now.fields_in_range() ==> r == Err::<rtc_time, Error>(Error::InvalidRTCTime),
{
    let y64: i64 = now.tm_year as i64 + 1900;
    let castable: bool = 1900 <= y64 && y64 < 2100 && 0 <= now.tm_mon && now.tm_mon <= 11 && 1
        <= now.tm_mday && now.tm_mday <= 31 && 0 <= now.tm_hour && now.tm_hour <= 23 && 0
        <= now.tm_min && now.tm_min <= 59 && 0 <= now.tm_sec && now.tm_sec <= 59;
    if !castable {
        return Err(Error::InvalidRTCTime);
    }
    let y: i32 = y64 as i32;
    let mon: u8 = (now.tm_mon + 1) as u8;
    let day: u8 = now.tm_mday as u8;
    let h: u8 = now.tm_hour as u8;
    let mi: u8 = now.tm_min as u8;
    let sec: u8 = now.tm_sec as u8;
    let t: i64 = match cal::unix_from_civil(y, mon, day, h, mi, sec) {
        Some(t) => t,
        None => {
            return Err(Error::InvalidRTCTime);
        },
    };
    if duration_secs > i64::MAX as u64 {
        return Err(Error::TzError);
    }
    let t2: i64 = match t.checked_add(duration_secs as i64) {
        Some(t2) => t2,
        None => {
            return Err(Error::TzError);
        },
    };
    match cal::civil_from_unix(t2) {
        Some((y2, m2, d2, h2, mi2, s2)) => Ok(rtc_time {
            tm_sec: s2 as i32,
            tm_min: mi2 as i32,
            tm_hour: h2 as i32,
            tm_mday: d2 as i32,
            tm_mon: m2 as i32 - 1,
            tm_year: y2 - 1900,
            tm_wday: -1,
            tm_yday: -1,
            tm_isdst: -1,
        }),
        None => Err(Error::TzError),
    }
}

/// How the clock's civil time maps to instants.
pub enum ClockZone {
    /// The hardware keeps UTC.
    Utc,
    /// The hardware keeps local time of the given zone.
    Local(tz::timezone::TimeZoneRef<'static>),
}

/// An open real-time-clock device with its resolved interpretation of
/// hardware time.
pub struct RtcClock {
    fd: i32,
    zone: ClockZone,
}

/// A scoped handle on the clock's armed one-shot wake alarm.
pub struct RtcAlarm {
    fd: i32,
}

impl RtcAlarm {
    /// The clock device's descriptor.
    pub closed spec fn spec_fd(self) -> i32 {
        self.fd
    }

    /// The raw descriptor, for the readiness wait set.
    pub fn as_raw_fd(&self) -> (fd: i32)
        ensures
            fd == self.spec_fd(),
    {
        self.fd
    }

    /// Blocks reading the clock's interrupt-status word until a read
    /// word carries the alarm-fired bit; words with only foreign bits
    /// are ignored and reading resumes.  A short status read and any
    /// read failure are fatal.  The drain is bounded by a cap no real
    /// device reaches within one armed alarm.
    pub fn wait(&self) -> (r: Result<(), Error>)
        ensures
            r matches Err(e) ==> (e is ClockError || e is RtcDeviceError),
    {
        let mut budget: u32 = 65536;
        while budget > 0
            invariant
                true,
            decreases budget,
        {
            let mut buf = crate::bitset::zeroed_vec(8);
            match sys::read_fd(self.fd, &mut buf) {
                ReadOutcome::Read(n) => {
                    if n != 8 {
                        return Err(Error::RtcDeviceError(0));
                    }
                    let w = word_of(&buf);
                    if alarm_fired(w) {
                        return Ok(());
                    }
                },
                ReadOutcome::WouldBlock => {
                    return Err(Error::ClockError(ERRNO_AGAIN));
                },
                ReadOutcome::Failed(e) => {
                    return Err(Error::ClockError(e));
                },
            }
            budget = budget - 1;
        }
        Err(Error::ClockError(ERRNO_AGAIN))
    }
}

impl RtcClock {
    /// The device's descriptor.
    pub closed spec fn spec_fd(self) -> i32 {
        self.fd
    }

    /// Whether hardware time is interpreted as UTC.
    pub closed spec fn is_utc(self) -> bool {
        self.zone is Utc
    }

    /// Opens the clock device and resolves how its time is read: the
    /// device must advertise wakeup support in sysfs; the clock mode
    /// comes from the system clock configuration, defaulting to UTC;
    /// a local-time clock needs a known local zone.
    pub fn new(path: &Vec<u8>) -> (r: Result<RtcClock, Error>)
        ensures
            r matches Ok(c) ==> c.spec_fd() >= 0,
            r matches Err(e) ==> (e is RtcDeviceError || e is SysFsError || e is WakeupNotSupported
                || e is UnknownLocalTimezone),
    {
        let fd = match sys::open_rdwr_nonblock(path) {
            Ok(fd) => fd,
            Err(e) => {
                return Err(Error::RtcDeviceError(e));
            },
        };
        let wk = match wakeup_path_for(path) {
            Some(p) => p,
            None => {
                let _ = sys::close_fd(fd);
                return Err(Error::SysFsError(2));
            },
        };
        let content = match read_file(&wk) {
            Ok(c) => c,
            Err(e) => {
                let _ = sys::close_fd(fd);
                return Err(Error::SysFsError(e));
            },
        };
        if !wakeup_reports_enabled(&content) {
            let _ = sys::close_fd(fd);
            return Err(Error::WakeupNotSupported);
        }
        let zone = match RealTimeClockMode::detect() {
            RealTimeClockMode::Utc => ClockZone::Utc,
            RealTimeClockMode::Local => {
                match local_tz() {
                    Some(z) => ClockZone::Local(z),
                    None => {
                        let _ = sys::close_fd(fd);
                        return Err(Error::UnknownLocalTimezone);
                    },
                }
            },
        };
        Ok(RtcClock { fd, zone })
    }

    /// The raw descriptor.
    pub fn as_raw_fd(&self) -> (fd: i32)
        ensures
            fd == self.spec_fd(),
    {
        self.fd
    }

    /// The handle through which an armed alarm is awaited.
    pub fn alarm(&self) -> (a: RtcAlarm)
        ensures
            a.spec_fd() == self.spec_fd(),
    {
        RtcAlarm { fd: self.fd }
    }

    /// The hardware time fields to program for a wakeup `duration_secs`
    /// after `now`: the hardware reading is interpreted in the clock's
    /// zone, the span is added in whole seconds, and the target instant
    /// is turned back into hardware fields, with the unused fields set
    /// to minus one.  On a UTC clock this succeeds exactly when `now`
    /// is a covered calendar time and the target stays in the covered
    /// range, and the target fields then name the instant of `now`
    /// plus the span.
    pub fn wakeup_fields(&self, now: rtc_time, duration_secs: u64) -> (r: Result<rtc_time, Error>)
        ensures
            self.is_utc() ==> ((r is Ok) <==> (now.valid() && duration_secs <= i64::MAX
                && cal::MIN_UNIX_TIME <= now.instant() + duration_secs < cal::MAX_UNIX_TIME)),
            self.is_utc() ==> (r matches Ok(w) ==> w.instant() == now.instant() + duration_secs),
            r matches Ok(w) ==> {
                &&& w.valid()
                &&& w.tm_wday == -1 && w.tm_yday == -1 && w.tm_isdst == -1
            },
            !now.fields_in_range() ==> r == Err::<rtc_time, Error>(Error::InvalidRTCTime),
    {
        let zone = match &self.zone {
            ClockZone::Utc => {
                return utc_wakeup_fields(now, duration_secs);
            },
            ClockZone::Local(z) => *z,
        };
        let y64: i64 = now.tm_year as i64 + 1900;
        let castable: bool = 1900 <= y64 && y64 < 2100 && 0 <= now.tm_mon && now.tm_mon <= 11 && 1
            <= now.tm_mday && now.tm_mday <= 31 && 0 <= now.tm_hour && now.tm_hour <= 23 && 0
            <= now.tm_min && now.tm_min <= 59 && 0 <= now.tm_sec && now.tm_sec <= 59;
        if !castable {
            return Err(Error::InvalidRTCTime);
        }
        let y: i32 = y64 as i32;
        let mon: u8 = (now.tm_mon + 1) as u8;
        let day: u8 = now.tm_mday as u8;
        let h: u8 = now.tm_hour as u8;
        let mi: u8 = now.tm_min as u8;
        let sec: u8 = now.tm_sec as u8;
        let t: i64 = match find_earliest_unix(zone, y, mon, day, h, mi, sec) {
            Ok(Some(t)) => t,
            Ok(None) => {
                return Err(Error::InvalidRTCTime);
            },
            Err(_) => {
                return Err(Error::TzError);
            },
        };
        if duration_secs > i64::MAX as u64 {
            return Err(Error::TzError);
        }
        let t2: i64 = match t.checked_add(duration_secs as i64) {
            Some(t2) => t2,
            None => {
                return Err(Error::TzError);
            },
        };
        let off: i32 = match ut_offset_at(zone, t2) {
            Ok(o) => o,
            Err(_) => {
                return Err(Error::TzError);
            },
        };
        let local2: i64 = match t2.checked_add(off as i64) {
            Some(l) => l,
            None => {
                return Err(Error::TzError);
            },
        };
        match cal::civil_from_unix(local2) {
            Some((y2, m2, d2, h2, mi2, s2)) => Ok(rtc_time {
                tm_sec: s2 as i32,
                tm_min: mi2 as i32,
                tm_hour: h2 as i32,
                tm_mday: d2 as i32,
                tm_mon: m2 as i32 - 1,
                tm_year: y2 - 1900,
                tm_wday: -1,
                tm_yday: -1,
                tm_isdst: -1,
            }),
            None => Err(Error::TzError),
        }
    }

    /// The armed one-shot alarm record for a wakeup `duration_secs`
    /// after `now`: the wakeup fields of `wakeup_fields`, with the
    /// enabled flag set.
    pub fn set_alarm_record(&self, now: rtc_time, duration_secs: u64) -> (r: Result<
        rtc_wkalrm,
        Error,
    >)
        ensures
            self.is_utc() ==> ((r is Ok) <==> (now.valid() && duration_secs <= i64::MAX
                && cal::MIN_UNIX_TIME <= now.instant() + duration_secs < cal::MAX_UNIX_TIME)),
            self.is_utc() ==> (r matches Ok(a) ==> a.time.instant() == now.instant()
                + duration_secs),
            r matches Ok(a) ==> {
                &&& a.enabled == 1 && a.pending == 0
                &&& a.time.valid()
                &&& a.time.tm_wday == -1 && a.time.tm_yday == -1 && a.time.tm_isdst == -1
            },
            !now.fields_in_range() ==> r == Err::<rtc_wkalrm, Error>(Error::InvalidRTCTime),
    {
        match self.wakeup_fields(now, duration_secs) {
            Ok(w) => Ok(rtc_wkalrm::armed(w)),
            Err(e) => Err(e),
        }
    }
}

} // verus!
