//! The scheduling core: a Sleeper owns the interval timer, the
//! registered key devices and the suspend policy, and blocks until one
//! wakeup condition fires.

use vstd::prelude::*;

use crate::duration::Duration;
use crate::evdev;
use crate::evdev::{has_code, KeyDevice};
use crate::keycode::KeyCode;
use crate::sys;
use crate::timer;
use crate::timer::{Alarm, Timer};
use vstd::string::StrSliceExecFns;

verus! {

/// What can go wrong while waiting.
#[derive(Clone, Debug)]
pub enum Error {
    /// A readiness or timer descriptor call failed; holds the errno
    /// value.
    OsError(i32),
    /// Fetching a key press failed.
    EvdevError(evdev::Error),
    /// Setting up a timer failed.
    TimerError(timer::Error),
    /// The suspend-to-RAM request could not be written; holds the
    /// errno value, or zero for a short write.
    SuspendError(i32),
}

/// Why a wait ended.
#[derive(Clone, Copy, Debug, PartialEq, Eq, Structural)]
pub enum WakeupReason {
    /// The interval timer ticked.
    IntervalTick,
    /// A registered exit key was pressed.
    ExitKeyPressed(KeyCode),
}

/// When the suspend transition is due.
#[derive(Clone, Copy, Debug, PartialEq, Eq, Structural)]
pub enum SuspendPlan {
    /// Suspend was not requested.
    Skip,
    /// Suspend is due at once, before the first readiness block.
    Immediate,
    /// Suspend waits for a one-shot grace timer to fire.
    AfterGrace,
}

/// The suspend plan of a configuration: with suspend requested, a zero
/// grace period makes suspend due immediately, and a positive one
/// defers it until the grace timer fires.
pub open spec fn spec_suspend_plan(suspend: bool, grace: Duration) -> SuspendPlan {
    if !suspend {
        SuspendPlan::Skip
    } else if grace.as_nanos() == 0 {
        SuspendPlan::Immediate
    } else {
        SuspendPlan::AfterGrace
    }
}

/// Decides the suspend plan, exactly as `spec_suspend_plan` does.
pub fn suspend_plan(suspend: bool, grace: &Duration) -> (p: SuspendPlan)
    ensures
        p == spec_suspend_plan(suspend, *grace),
        p is Immediate <==> suspend && grace.as_nanos() == 0,
{
    if !suspend {
        SuspendPlan::Skip
    } else if grace.is_zero() {
        SuspendPlan::Immediate
    } else {
        SuspendPlan::AfterGrace
    }
}

/// One entry of the wait set during a scan, in wait-set order: the
/// interval alarm first, the key devices in registration order, the
/// grace timer last.
#[derive(Clone, Copy, Debug, PartialEq, Eq, Structural)]
pub enum Slot {
    /// The interval alarm, and whether it is ready.
    Alarm { ready: bool },
    /// A key device: whether it is ready, and the filtered press its
    /// queue yields when drained.
    Key { ready: bool, press: Option<u16> },
    /// The grace timer, and whether it is ready.
    Grace { ready: bool },
}

impl Slot {
    /// The return a ready slot forces: a tick for the alarm, a press
    /// for a key device whose drain yields one.  A ready grace timer
    /// and a ready key device without a matching press return nothing.
    pub open spec fn decision(self) -> Option<WakeupReason> {
        match self {
            Slot::Alarm { ready } => if ready {
                Some(WakeupReason::IntervalTick)
            } else {
                None
            },
            Slot::Key { ready, press } => if ready && press is Some {
                Some(WakeupReason::ExitKeyPressed(KeyCode(press->0)))
            } else {
                None
            },
            Slot::Grace { ready } => None,
        }
    }

    /// Whether the slot marks suspend as due: a ready grace timer.
    pub open spec fn defers_to_suspend(self) -> bool {
        self matches Slot::Grace { ready: true }
    }
}

/// What one scan of the wait set concludes.
#[derive(Clone, Copy, Debug, PartialEq, Eq, Structural)]
pub struct ScanResult {
    /// The wakeup the scan returns, if any slot forced one.
    pub outcome: Option<WakeupReason>,
    /// Whether the scan saw the grace timer fire before any return.
    pub suspend_due: bool,
}

/// The conclusion of scanning the wait set from index `i` on.
pub open spec fn spec_scan_from(slots: Seq<Slot>, i: int) -> ScanResult
    decreases slots.len() - i,
{
    if i < 0 || i >= slots.len() {
        ScanResult { outcome: None, suspend_due: false }
    } else if slots[i].decision() is Some {
        ScanResult { outcome: slots[i].decision(), suspend_due: false }
    } else {
        let rest = spec_scan_from(slots, i + 1);
        ScanResult {
            outcome: rest.outcome,
            suspend_due: slots[i].defers_to_suspend() || rest.suspend_due,
        }
    }
}

/// The conclusion of one scan of the whole wait set.
pub open spec fn spec_scan(slots: Seq<Slot>) -> ScanResult {
    spec_scan_from(slots, 0)
}

/// Tie-break law: when descriptors are ready at once, the scan returns
/// the decision of the first slot, in wait-set order, that forces one;
/// it returns nothing exactly when no slot forces a return.
pub proof fn lemma_scan_tiebreak(slots: Seq<Slot>)
    ensures
        spec_scan(slots).outcome matches Some(r) ==> exists|j: int|
            {
                &&& 0 <= j < slots.len()
                &&& (#[trigger] slots[j].decision()) == Some(r)
                &&& forall|i: int| 0 <= i < j ==> (#[trigger] slots[i].decision()) is None
            },
        spec_scan(slots).outcome is None <==> forall|i: int|
            0 <= i < slots.len() ==> (#[trigger] slots[i].decision()) is None,
{
    lemma_scan_from_tiebreak(slots, 0);
}

/// The tie-break law for a scan that starts at index `i`.
proof fn lemma_scan_from_tiebreak(slots: Seq<Slot>, i: int)
    requires
        0 <= i,
    ensures
        spec_scan_from(slots, i).outcome matches Some(r) ==> exists|j: int|
            {
                &&& i <= j < slots.len()
                &&& (#[trigger] slots[j].decision()) == Some(r)
                &&& forall|k: int| i <= k < j ==> (#[trigger] slots[k].decision()) is None
            },
        spec_scan_from(slots, i).outcome is None <==> forall|k: int|
            i <= k < slots.len() ==> (#[trigger] slots[k].decision()) is None,
    decreases slots.len() - i,
{
    if i < slots.len() {
        lemma_scan_from_tiebreak(slots, i + 1);
        if slots[i].decision() is Some {
            let r = spec_scan_from(slots, i).outcome->0;
            assert(slots[i as int].decision() == Some(r));
        } else if spec_scan_from(slots, i + 1).outcome is Some {
            let r = spec_scan_from(slots, i + 1).outcome->0;
            let j = choose|j: int|
                {
                    &&& i + 1 <= j < slots.len()
                    &&& (#[trigger] slots[j].decision()) == Some(r)
                    &&& forall|k: int| i + 1 <= k < j ==> (#[trigger] slots[k].decision()) is None
                };
            assert(slots[j].decision() == Some(r));
            assert(forall|k: int| i <= k < j ==> (#[trigger] slots[k].decision()) is None);
        }
    }
}

/// Scans a wait set, exactly as `spec_scan` concludes it.
pub fn scan_decision(slots: &Vec<Slot>) -> (r: ScanResult)
    ensures
        r == spec_scan(slots@),
{
    let n = slots.len();
    let mut due = false;
    let mut i: usize = 0;
    while i < n
        invariant
            i <= n == slots@.len(),
            spec_scan(slots@).outcome == spec_scan_from(slots@, i as int).outcome,
            spec_scan(slots@).suspend_due == (due || spec_scan_from(slots@, i as int).suspend_due),
        decreases n - i,
    {
        let s = slots[i];
        match s {
            Slot::Alarm { ready } => {
                if ready {
                    return ScanResult { outcome: Some(WakeupReason::IntervalTick), suspend_due: due };
                }
            },
            Slot::Key { ready, press } => {
                if ready {
                    match press {
                        Some(c) => {
                            return ScanResult {
                                outcome: Some(WakeupReason::ExitKeyPressed(KeyCode(c))),
                                suspend_due: due,
                            };
                        },
                        None => {},
                    }
                }
            },
            Slot::Grace { ready } => {
                if ready {
                    due = true;
                }
            },
        }
        i = i + 1;
    }
    ScanResult { outcome: None, suspend_due: due }
}


/// The position of the registered device with descriptor `fd`, if any.
fn find_fd(keys: &Vec<KeyDevice>, fd: i32) -> (r: Option<usize>)
    ensures
        match r {
            Some(i) => i < keys@.len() && keys@[i as int].spec_fd() == fd,
            None => !has_fd(keys@, fd),
        },
{
    let n = keys.len();
    let mut i: usize = 0;
    while i < n
        invariant
            i <= n == keys@.len(),
            forall|j: int| 0 <= j < i ==> (#[trigger] keys@[j]).spec_fd() != fd,
        decreases n - i,
    {
        if keys[i].as_raw_fd() == fd {
            return Some(i);
        }
        i = i + 1;
    }
    None
}

/// Registers one device into the registry: the entry with the same
/// descriptor, if any, is replaced; every other entry is kept; a new
/// descriptor is appended after the existing ones.
fn insert_device(keys: &mut Vec<KeyDevice>, d: KeyDevice)
    requires
        keys_wf(old(keys)@),
        d.wf(),
    ensures
        keys_wf(final(keys)@),
        forall|f: i32|
            has_fd(final(keys)@, f) <==> (has_fd(old(keys)@, f) || f == d.spec_fd()),
        device_in(final(keys)@, d),
        forall|x: KeyDevice|
            device_in(old(keys)@, x) && x.spec_fd() != d.spec_fd() ==> #[trigger] device_in(
                final(keys)@,
                x,
            ),
        forall|i: int|
            0 <= i < final(keys)@.len() ==> (device_in(old(keys)@, #[trigger] final(keys)@[i])
                || final(keys)@[i] == d),
{
    let ghost prev = keys@;
    let fd = d.as_raw_fd();
    match find_fd(keys, fd) {
        Some(idx) => {
            keys.set(idx, d);
            proof {
                assert(keys@[idx as int] == d);
                assert(prev[idx as int].spec_fd() == fd);
                assert forall|a: int| 0 <= a < keys@.len() implies (#[trigger] keys@[a]).wf() by {
                    if a != idx {
                        assert(keys@[a] == prev[a]);
                    }
                }
                assert forall|a: int, b: int| 0 <= a < b < keys@.len() implies (
                #[trigger] keys@[a]).spec_fd() != (#[trigger] keys@[b]).spec_fd() by {
                    if a != idx && b != idx {
                        assert(keys@[a] == prev[a]);
                        assert(keys@[b] == prev[b]);
                    } else if a == idx {
                        assert(keys@[b] == prev[b]);
                        assert(prev[b].spec_fd() != prev[idx as int].spec_fd());
                    } else {
                        assert(keys@[a] == prev[a]);
                        assert(prev[a].spec_fd() != prev[idx as int].spec_fd());
                    }
                }
                assert forall|f: i32| has_fd(keys@, f) implies (has_fd(prev, f) || f == fd) by {
                    let j = choose|j: int| 0 <= j < keys@.len() && keys@[j].spec_fd() == f;
                    if j != idx {
                        assert(prev[j].spec_fd() == f);
                    }
                }
                assert forall|f: i32| (has_fd(prev, f) || f == fd) implies has_fd(keys@, f) by {
                    if f == fd {
                        assert(keys@[idx as int].spec_fd() == f);
                    } else if has_fd(prev, f) {
                        let j = choose|j: int| 0 <= j < prev.len() && prev[j].spec_fd() == f;
                        assert(j != idx);
                        assert(keys@[j].spec_fd() == f);
                    }
                }
                assert forall|x: KeyDevice|
                    device_in(prev, x) && x.spec_fd() != d.spec_fd() implies device_in(
                    keys@,
                    x,
                ) by {
                    let w = choose|w: int| 0 <= w < prev.len() && prev[w] == x;
                    assert(w != idx);
                    assert(keys@[w] == x);
                }
                assert forall|i: int| 0 <= i < keys@.len() implies (device_in(
                    prev,
                    #[trigger] keys@[i],
                ) || keys@[i] == d) by {
                    if i != idx {
                        assert(keys@[i] == prev[i]);
                    }
                }
            }
        },
        None => {
            keys.push(d);
            proof {
                assert(keys@[keys@.len() - 1] == d);
                assert forall|a: int| 0 <= a < keys@.len() implies (#[trigger] keys@[a]).wf() by {
                    if a < prev.len() {
                        assert(keys@[a] == prev[a]);
                    } else {
                        assert(keys@[a] == d);
                    }
                }
                assert forall|a: int, b: int| 0 <= a < b < keys@.len() implies (
                #[trigger] keys@[a]).spec_fd() != (#[trigger] keys@[b]).spec_fd() by {
                    if b < prev.len() {
                        assert(keys@[a] == prev[a]);
                        assert(keys@[b] == prev[b]);
                    } else {
                        assert(keys@[a] == prev[a]);
                        assert(keys@[b] == d);
                        assert(!has_fd(prev, fd));
                        assert(prev[a].spec_fd() != fd);
                    }
                }
                assert forall|f: i32| has_fd(keys@, f) implies (has_fd(prev, f) || f == fd) by {
                    let j = choose|j: int| 0 <= j < keys@.len() && keys@[j].spec_fd() == f;
                    if j < prev.len() {
                        assert(prev[j].spec_fd() == f);
                    }
                }
                assert forall|f: i32| (has_fd(prev, f) || f == fd) implies has_fd(keys@, f) by {
                    if f == fd {
                        assert(keys@[keys@.len() - 1].spec_fd() == f);
                    } else if has_fd(prev, f) {
                        let j = choose|j: int| 0 <= j < prev.len() && prev[j].spec_fd() == f;
                        assert(keys@[j].spec_fd() == f);
                    }
                }
                assert forall|x: KeyDevice|
                    device_in(prev, x) && x.spec_fd() != d.spec_fd() implies device_in(
                    keys@,
                    x,
                ) by {
                    let w = choose|w: int| 0 <= w < prev.len() && prev[w] == x;
                    assert(keys@[w] == x);
                }
                assert forall|i: int| 0 <= i < keys@.len() implies (device_in(
                    prev,
                    #[trigger] keys@[i],
                ) || keys@[i] == d) by {
                    if i < prev.len() {
                        assert(keys@[i] == prev[i]);
                    } else {
                        assert(keys@[i] == d);
                    }
                }
            }
        },
    }
}


/// The wait-set slots of one readiness round: the alarm slot first,
/// one key slot per registered device carrying the press its drain
/// yields, and the grace slot last when a grace timer is armed.
pub open spec fn wait_slots(ready: Seq<bool>, presses: Seq<Option<u16>>, nkeys: int) -> Seq<Slot> {
    Seq::new(
        ready.len(),
        |j: int|
            if j == 0 {
                Slot::Alarm { ready: ready[j] }
            } else if j <= nkeys {
                Slot::Key { ready: ready[j], press: presses[j - 1] }
            } else {
                Slot::Grace { ready: ready[j] }
            },
    )
}

/// Whether some slot in `[i, j)` marks suspend as due.
pub open spec fn defers_in(slots: Seq<Slot>, i: int, j: int) -> bool {
    exists|k: int| i <= k < j && (#[trigger] slots[k]).defers_to_suspend()
}

/// A scan that found no decision among the slots before `j` concludes
/// as the scan from `j` does, with the grace fires seen so far added.
proof fn lemma_scan_mid(slots: Seq<Slot>, i: int, j: int)
    requires
        0 <= i <= j <= slots.len(),
        forall|k: int| i <= k < j ==> (#[trigger] slots[k].decision()) is None,
    ensures
        spec_scan_from(slots, i).outcome == spec_scan_from(slots, j).outcome,
        spec_scan_from(slots, i).suspend_due == (defers_in(slots, i, j) || spec_scan_from(
            slots,
            j,
        ).suspend_due),
    decreases j - i,
{
    if i < j {
        lemma_scan_mid(slots, i + 1, j);
        if slots[i].defers_to_suspend() {
            assert(defers_in(slots, i, j));
        }
        if defers_in(slots, i + 1, j) {
            let k = choose|k: int| i + 1 <= k < j && (#[trigger] slots[k]).defers_to_suspend();
            assert(i <= k < j && slots[k].defers_to_suspend());
        }
        if defers_in(slots, i, j) && !slots[i].defers_to_suspend() {
            let k = choose|k: int| i <= k < j && (#[trigger] slots[k]).defers_to_suspend();
            assert(i + 1 <= k < j && slots[k].defers_to_suspend());
        }
    }
}

/// A slot that defers extends the fired range.
proof fn lemma_defers_fire(slots: Seq<Slot>, j: int)
    requires
        0 <= j < slots.len(),
        slots[j].defers_to_suspend(),
    ensures
        defers_in(slots, 0, j + 1),
{
    assert(0 <= j < j + 1 && slots[j].defers_to_suspend());
}

/// A slot that does not defer leaves the fired range unchanged.
proof fn lemma_defers_step(slots: Seq<Slot>, j: int)
    requires
        0 <= j < slots.len(),
        !slots[j].defers_to_suspend(),
    ensures
        defers_in(slots, 0, j + 1) == defers_in(slots, 0, j),
{
    if defers_in(slots, 0, j + 1) {
        let k = choose|k: int| 0 <= k < j + 1 && (#[trigger] slots[k]).defers_to_suspend();
        assert(k < j);
        assert(defers_in(slots, 0, j));
    }
    if defers_in(slots, 0, j) {
        let k = choose|k: int| 0 <= k < j && (#[trigger] slots[k]).defers_to_suspend();
        assert(0 <= k < j + 1 && slots[k].defers_to_suspend());
    }
}

/// Well-formed presses of one round: one per registered device, and a
/// found press always lies in its device's filter.
pub open spec fn round_presses_ok(keys: Seq<KeyDevice>, presses: Seq<Option<u16>>) -> bool {
    &&& presses.len() == keys.len()
    &&& forall|i: int|
        0 <= i < presses.len() ==> ((#[trigger] presses[i]) matches Some(c) ==> has_code(
            keys[i].filter_seq(),
            c,
        ))
}

/// The orchestrator: one interval timer, the registered key devices in
/// a fixed order, and the suspend policy.
pub struct Sleeper {
    timer: Timer,
    duration: Duration,
    wakeup_keys: Vec<KeyDevice>,
    suspend: bool,
    suspend_grace: Duration,
}

/// Whether some registered device's descriptor is `fd`.
pub open spec fn has_fd(keys: Seq<KeyDevice>, fd: i32) -> bool {
    exists|i: int| 0 <= i < keys.len() && keys[i].spec_fd() == fd
}

/// Whether `d` is one of the devices of `keys`.
pub open spec fn device_in(keys: Seq<KeyDevice>, d: KeyDevice) -> bool {
    exists|i: int| 0 <= i < keys.len() && keys[i] == d
}

/// A well-formed device registry: devices carry non-empty filters and
/// pairwise distinct descriptors.
pub open spec fn keys_wf(keys: Seq<KeyDevice>) -> bool {
    &&& forall|i: int| 0 <= i < keys.len() ==> (#[trigger] keys[i]).wf()
    &&& forall|i: int, j: int|
        0 <= i < j < keys.len() ==> (#[trigger] keys[i]).spec_fd() != (#[trigger] keys[j]).spec_fd()
}

impl Sleeper {
    /// The configured interval.
    pub closed spec fn spec_duration(self) -> Duration {
        self.duration
    }

    /// The registered key devices, in registration order.
    pub closed spec fn keys_seq(self) -> Seq<KeyDevice> {
        self.wakeup_keys@
    }

    /// Whether suspend to RAM was requested.
    pub closed spec fn spec_suspend(self) -> bool {
        self.suspend
    }

    /// The configured suspend grace period.
    pub closed spec fn spec_grace(self) -> Duration {
        self.suspend_grace
    }

    /// The timer the wait arms.
    pub closed spec fn spec_timer(self) -> Timer {
        self.timer
    }

    /// A well-formed sleeper: sound durations and a well-formed device
    /// registry.
    pub open spec fn wf(self) -> bool {
        &&& self.spec_duration().wf()
        &&& self.spec_duration().secs <= i64::MAX
        &&& self.spec_grace().wf()
        &&& self.spec_grace().secs <= i64::MAX
        &&& keys_wf(self.keys_seq())
    }

    /// A sleeper over the given interval and timer, with no key
    /// devices, suspend off and a zero grace period.
    pub fn new(duration: Duration, timer: Timer) -> (s: Sleeper)
        requires
            duration.wf(),
            duration.secs <= i64::MAX,
        ensures
            s.wf(),
            s.spec_duration() == duration,
            s.spec_timer() == timer,
            s.keys_seq().len() == 0,
            !s.spec_suspend(),
            s.spec_grace().as_nanos() == 0,
    {
        Sleeper {
            timer,
            duration,
            wakeup_keys: Vec::new(),
            suspend: false,
            suspend_grace: Duration::from_secs(0),
        }
    }

    /// Registers key devices as wake sources, in the given order.  A
    /// device whose descriptor is already registered replaces the
    /// earlier entry; descriptors stay unique.
    pub fn wakeup_keys(&mut self, key_devices: Vec<KeyDevice>)
        requires
            old(self).wf(),
            forall|i: int| 0 <= i < key_devices@.len() ==> (#[trigger] key_devices@[i]).wf(),
        ensures
            final(self).wf(),
            forall|fd: i32|
                has_fd(final(self).keys_seq(), fd) <==> (has_fd(old(self).keys_seq(), fd) || has_fd(
                    key_devices@,
                    fd,
                )),
            forall|i: int|
                0 <= i < final(self).keys_seq().len() ==> (device_in(
                    old(self).keys_seq(),
                    #[trigger] final(self).keys_seq()[i],
                ) || device_in(key_devices@, final(self).keys_seq()[i])),
            forall|i: int|
                0 <= i < key_devices@.len() ==> ((forall|j: int|
                    i < j < key_devices@.len() ==> (#[trigger] key_devices@[j]).spec_fd()
                        != key_devices@[i].spec_fd()) ==> device_in(
                    final(self).keys_seq(),
                    #[trigger] key_devices@[i],
                )),
            final(self).spec_duration() == old(self).spec_duration(),
            final(self).spec_suspend() == old(self).spec_suspend(),
            final(self).spec_grace() == old(self).spec_grace(),
            final(self).spec_timer() == old(self).spec_timer(),
    {
        let ghost all = key_devices@;
        let mut devices = key_devices;
        while devices.len() > 0
            invariant
                devices@.len() <= all.len(),
                devices@ == all.subrange(all.len() - devices@.len(), all.len() as int),
                forall|k: int| 0 <= k < all.len() ==> (#[trigger] all[k]).wf(),
                keys_wf(self.wakeup_keys@),
                forall|fd: i32|
                    has_fd(self.wakeup_keys@, fd) <==> (has_fd(old(self).keys_seq(), fd) || has_fd(
                        all.subrange(0, all.len() - devices@.len()),
                        fd,
                    )),
                forall|i: int|
                    0 <= i < self.wakeup_keys@.len() ==> (device_in(
                        old(self).keys_seq(),
                        #[trigger] self.wakeup_keys@[i],
                    ) || device_in(all, self.wakeup_keys@[i])),
                forall|i: int|
                    0 <= i < all.len() - devices@.len() ==> ((forall|j: int|
                        i < j < all.len() - devices@.len() ==> (#[trigger] all[j]).spec_fd()
                            != all[i].spec_fd()) ==> device_in(
                        self.wakeup_keys@,
                        #[trigger] all[i],
                    )),
                self.duration == old(self).duration,
                self.suspend == old(self).suspend,
                self.suspend_grace == old(self).suspend_grace,
                self.timer == old(self).timer,
            decreases devices@.len(),
        {
            let ghost done = all.len() - devices@.len();
            let d = devices.remove(0);
            proof {
                assert(d == all[done]);
                assert(d.wf());
                assert(devices@ =~= all.subrange(all.len() - devices@.len(), all.len() as int));
            }
            let ghost prev = self.wakeup_keys@;
            insert_device(&mut self.wakeup_keys, d);
            proof {
                let done2 = all.len() - devices@.len();
                assert(done2 == done + 1);
                // The processed prefix grew by the inserted device.
                assert forall|f: i32| has_fd(all.subrange(0, done2), f) implies (has_fd(
                    all.subrange(0, done as int),
                    f,
                ) || f == d.spec_fd()) by {
                    let j = choose|j: int|
                        0 <= j < done2 && all.subrange(0, done2)[j].spec_fd() == f;
                    if j < done {
                        assert(all.subrange(0, done as int)[j].spec_fd() == f);
                    } else {
                        assert(all[j] == d);
                    }
                }
                assert forall|f: i32| (has_fd(all.subrange(0, done as int), f) || f
                    == d.spec_fd()) implies has_fd(all.subrange(0, done2), f) by {
                    if f == d.spec_fd() {
                        assert(all.subrange(0, done2)[done as int].spec_fd() == f);
                    } else if has_fd(all.subrange(0, done as int), f) {
                        let j = choose|j: int|
                            0 <= j < done && all.subrange(0, done as int)[j].spec_fd() == f;
                        assert(all.subrange(0, done2)[j].spec_fd() == f);
                    }
                }
                // Every registered device still comes from the old registry
                // or the given ones.
                assert forall|i: int| 0 <= i < self.wakeup_keys@.len() implies (device_in(
                    old(self).keys_seq(),
                    #[trigger] self.wakeup_keys@[i],
                ) || device_in(all, self.wakeup_keys@[i])) by {
                    if self.wakeup_keys@[i] == d {
                        assert(all[done] == d);
                        assert(device_in(all, d));
                    } else {
                        assert(device_in(prev, self.wakeup_keys@[i]));
                        let w = choose|w: int|
                            0 <= w < prev.len() && prev[w] == self.wakeup_keys@[i];
                        assert(device_in(old(self).keys_seq(), prev[w]) || device_in(
                            all,
                            prev[w],
                        ));
                    }
                }
                // The last registration per descriptor stays present.
                assert forall|i: int|
                    0 <= i < done2 && (forall|j: int|
                        i < j < done2 ==> (#[trigger] all[j]).spec_fd() != all[i].spec_fd())
                    implies device_in(self.wakeup_keys@, all[i]) by {
                    if i == done {
                        assert(device_in(self.wakeup_keys@, d));
                    } else {
                        assert(all[done].spec_fd() != all[i].spec_fd());
                        assert(forall|j: int|
                            i < j < done ==> (#[trigger] all[j]).spec_fd() != all[i].spec_fd());
                        assert(device_in(prev, all[i]));
                        assert(all[i].spec_fd() != d.spec_fd());
                        assert(device_in(self.wakeup_keys@, all[i]));
                    }
                }
            }
        }
        proof {
            assert(all.subrange(0, all.len() as int) =~= all);
            assert(devices@.len() == 0);
            assert forall|fd: i32| has_fd(self.wakeup_keys@, fd) <==> (has_fd(
                old(self).keys_seq(),
                fd,
            ) || has_fd(all, fd)) by {
                assert(has_fd(self.wakeup_keys@, fd) <==> (has_fd(old(self).keys_seq(), fd)
                    || has_fd(all.subrange(0, all.len() - devices@.len()), fd)));
            }
        }
    }

    /// Requests or clears suspend to RAM while sleeping.
    pub fn suspend(&mut self, yes: bool)
        requires
            old(self).wf(),
        ensures
            final(self).wf(),
            final(self).spec_suspend() == yes,
            final(self).spec_duration() == old(self).spec_duration(),
            final(self).spec_grace() == old(self).spec_grace(),
            final(self).keys_seq() == old(self).keys_seq(),
            final(self).spec_timer() == old(self).spec_timer(),
    {
        self.suspend = yes;
    }

    /// Sets the grace period that delays suspend after a wait begins.
    pub fn suspend_grace(&mut self, period: Duration)
        requires
            old(self).wf(),
            period.wf(),
            period.secs <= i64::MAX,
        ensures
            final(self).wf(),
            final(self).spec_grace() == period,
            final(self).spec_duration() == old(self).spec_duration(),
            final(self).spec_suspend() == old(self).spec_suspend(),
            final(self).keys_seq() == old(self).keys_seq(),
            final(self).spec_timer() == old(self).spec_timer(),
    {
        self.suspend_grace = period;
    }

    /// The configured interval.
    pub fn duration(&self) -> (d: Duration)
        ensures
            d == self.spec_duration(),
    {
        self.duration
    }

    /// The owned timer, through which a hardware-alarm backend's owner
    /// reaches the clock.
    pub fn timer_ref(&self) -> (t: &Timer)
        ensures
            *t == self.spec_timer(),
    {
        &self.timer
    }

    /// Arms the grace timer the suspend policy asks for and appends its
    /// descriptor to the wait set: with suspend off nothing changes;
    /// with a zero grace period suspend is due at once and no timer is
    /// armed; otherwise a one-shot timer over the grace period joins
    /// the wait set and suspend waits for it.
    fn set_suspend_timer(&self, fds: &mut Vec<i32>) -> (r: Result<
        (bool, Option<nix::sys::timerfd::TimerFd>),
        Error,
    >)
        requires
            self.wf(),
        ensures
            r matches Ok(p) ==> {
                &&& (p.0 <==> spec_suspend_plan(self.spec_suspend(), self.spec_grace())
                    is Immediate)
                &&& (p.1 is Some <==> spec_suspend_plan(self.spec_suspend(), self.spec_grace())
                    is AfterGrace)
                &&& (p.1 is Some ==> final(fds)@.len() == old(fds)@.len() + 1)
                &&& (p.1 is Some ==> final(fds)@.subrange(0, old(fds)@.len() as int) == old(
                    fds,
                )@)
                &&& (p.1 is None ==> final(fds)@ == old(fds)@)
            },
            r matches Err(e) ==> e is OsError,
    {
        match suspend_plan(self.suspend, &self.suspend_grace) {
            SuspendPlan::Skip => Ok((false, None)),
            SuspendPlan::Immediate => Ok((true, None)),
            SuspendPlan::AfterGrace => {
                let (t, tfd) = match sys::timerfd_monotonic() {
                    Ok(p) => p,
                    Err(e) => {
                        return Err(Error::OsError(e));
                    },
                };
                match sys::timerfd_oneshot(&t, &self.suspend_grace) {
                    Ok(()) => {},
                    Err(e) => {
                        return Err(Error::OsError(e));
                    },
                }
                fds.push(tfd);
                proof {
                    assert(fds@.subrange(0, old(fds)@.len() as int) =~= old(fds)@);
                }
                Ok((false, Some(t)))
            },
        }
    }

    /// Requests suspend to RAM: one write of the literal `mem` to the
    /// system power-state control file.  The call blocks until the
    /// system resumes; a failure to open or to finish the write is
    /// fatal.
    fn suspend_to_memory(&self) -> (r: Result<(), Error>)
        ensures
            r matches Err(e) ==> e is SuspendError,
    {
        let path = "/sys/power/state".as_bytes_vec();
        let fd = match sys::open_write(&path) {
            Ok(fd) => fd,
            Err(e) => {
                return Err(Error::SuspendError(e));
            },
        };
        let word = "mem".as_bytes_vec();
        match sys::write_fd(fd, &word) {
            Ok(n) => {
                let _ = sys::close_fd(fd);
                if n == word.len() {
                    Ok(())
                } else {
                    Err(Error::SuspendError(0))
                }
            },
            Err(e) => {
                let _ = sys::close_fd(fd);
                Err(Error::SuspendError(e))
            },
        }
    }

    /// The wait set of one cycle before the grace timer joins it: the
    /// armed alarm's descriptor first, then the key devices' in
    /// registration order — the fixed order the scan decides by.
    fn wait_set(&self, alarm: &Alarm<'_>) -> (fds: Vec<i32>)
        ensures
            fds@.len() == self.keys_seq().len() + 1,
            fds@[0] == alarm.spec_fd(),
            forall|i: int|
                0 <= i < self.keys_seq().len() ==> fds@[i + 1] == (
                #[trigger] self.keys_seq()[i]).spec_fd(),
    {
        let mut fds: Vec<i32> = Vec::new();
        fds.push(alarm.as_raw_fd());
        let nkeys = self.wakeup_keys.len();
        let mut i: usize = 0;
        while i < nkeys
            invariant
                i <= nkeys == self.keys_seq().len(),
                fds@.len() == i + 1,
                fds@[0] == alarm.spec_fd(),
                forall|k: int|
                    0 <= k < i ==> fds@[k + 1] == (#[trigger] self.keys_seq()[k]).spec_fd(),
            decreases nkeys - i,
        {
            fds.push(self.wakeup_keys[i].as_raw_fd());
            i = i + 1;
        }
        fds
    }

    /// One scan of the wait set after a readiness block, in the fixed
    /// order, with the device drains performed as their slots are
    /// visited: the round concludes exactly as the scan model does
    /// over slots that carry the observed readiness and the presses
    /// the drains yielded.
    fn scan_round(
        &self,
        alarm: &Alarm<'_>,
        grace_timer: &Option<nix::sys::timerfd::TimerFd>,
        ready: &Vec<bool>,
    ) -> (r: Result<ScanResult, Error>)
        requires
            self.wf(),
            ready@.len() == self.keys_seq().len() + 1 || ready@.len() == self.keys_seq().len()
                + 2,
            grace_timer is Some <==> ready@.len() == self.keys_seq().len() + 2,
        ensures
            r matches Ok(sr) ==> exists|presses: Seq<Option<u16>>|
                round_presses_ok(self.keys_seq(), presses) && sr == spec_scan(
                    wait_slots(ready@, presses, self.keys_seq().len() as int),
                ),
            r matches Ok(sr) ==> (sr.outcome matches Some(w) ==> (w matches
                WakeupReason::ExitKeyPressed(k) ==> exists|i: int|
                0 <= i < self.keys_seq().len() && has_code(
                    (#[trigger] self.keys_seq()[i]).filter_seq(),
                    k.0,
                ))),
            r matches Ok(sr) ==> (sr.suspend_due ==> ready@.len() == self.keys_seq().len() + 2),
            r matches Err(e) ==> !(e is SuspendError),
    {
        let nkeys = self.wakeup_keys.len();
        let n = ready.len();
        let ghost mut presses: Seq<Option<u16>> = Seq::new(nkeys as nat, |i: int| None::<u16>);
        let mut fired = false;
        let mut j: usize = 0;
        while j < n
            invariant
                self.wf(),
                nkeys == self.keys_seq().len(),
                n == ready@.len(),
                n == nkeys + 1 || n == nkeys + 2,
                grace_timer is Some <==> n == nkeys + 2,
                j <= n,
                round_presses_ok(self.keys_seq(), presses),
                forall|i: int| 0 <= i < presses.len() ==> (#[trigger] presses[i]) is None,
                forall|k: int|
                    0 <= k < j ==> (#[trigger] wait_slots(
                        ready@,
                        presses,
                        nkeys as int,
                    )[k].decision()) is None,
                fired == defers_in(wait_slots(ready@, presses, nkeys as int), 0, j as int),
                fired ==> n == nkeys + 2,
            decreases n - j,
        {
            let ghost slots = wait_slots(ready@, presses, nkeys as int);
            if ready[j] {
                if j == 0 {
                    match alarm.wait() {
                        Ok(()) => {},
                        Err(e) => {
                            return Err(Error::TimerError(e));
                        },
                    }
                    let sr = ScanResult {
                        outcome: Some(WakeupReason::IntervalTick),
                        suspend_due: fired,
                    };
                    proof {
                        assert(slots[0] == Slot::Alarm { ready: true });
                        assert(spec_scan_from(slots, 0) == ScanResult {
                            outcome: Some(WakeupReason::IntervalTick),
                            suspend_due: false,
                        });
                        assert(!defers_in(slots, 0, 0));
                        assert(sr == spec_scan(slots));
                        assert(exists|ps: Seq<Option<u16>>|
                            round_presses_ok(self.keys_seq(), ps) && sr == spec_scan(
                                wait_slots(ready@, ps, nkeys as int),
                            ));
                    }
                    return Ok(sr);
                } else if j - 1 < nkeys {
                    match self.wakeup_keys[j - 1].next_key_press() {
                        Ok(Some(code)) => {
                            let sr = ScanResult {
                                outcome: Some(WakeupReason::ExitKeyPressed(code)),
                                suspend_due: fired,
                            };
                            proof {
                                let old_presses = presses;
                                presses = presses.update(j - 1, Some(code.0));
                                let slots2 = wait_slots(ready@, presses, nkeys as int);
                                assert forall|k: int| 0 <= k < n && k != j implies slots2[k]
                                    == slots[k] by {
                                    if 1 <= k && k <= nkeys {
                                        assert(presses[k - 1] == old_presses[k - 1]);
                                    }
                                }
                                assert(slots2[j as int] == Slot::Key {
                                    ready: true,
                                    press: Some(code.0),
                                });
                                assert(slots2[j as int].decision() == Some(
                                    WakeupReason::ExitKeyPressed(code),
                                ));
                                assert forall|k: int| 0 <= k < j implies (
                                #[trigger] slots2[k].decision()) is None by {
                                    assert(slots2[k] == slots[k]);
                                }
                                assert(defers_in(slots2, 0, j as int) == defers_in(
                                    slots,
                                    0,
                                    j as int,
                                )) by {
                                    if defers_in(slots2, 0, j as int) {
                                        let k = choose|k: int|
                                            0 <= k < j && (#[trigger] slots2[k]).defers_to_suspend();
                                        assert(slots[k].defers_to_suspend());
                                    }
                                    if defers_in(slots, 0, j as int) {
                                        let k = choose|k: int|
                                            0 <= k < j && (#[trigger] slots[k]).defers_to_suspend();
                                        assert(slots2[k].defers_to_suspend());
                                    }
                                }
                                lemma_scan_mid(slots2, 0, j as int);
                                assert(spec_scan_from(slots2, j as int) == ScanResult {
                                    outcome: Some(WakeupReason::ExitKeyPressed(code)),
                                    suspend_due: false,
                                });
                                assert(fired == defers_in(slots, 0, j as int));
                                assert(spec_scan(slots2).outcome == Some(
                                    WakeupReason::ExitKeyPressed(code),
                                ));
                                assert(spec_scan(slots2).suspend_due == fired);
                                assert(sr == spec_scan(slots2));
                                assert(round_presses_ok(self.keys_seq(), presses)) by {
                                    assert(has_code(
                                        self.keys_seq()[j - 1].filter_seq(),
                                        code.0,
                                    ));
                                    assert(forall|i: int|
                                        0 <= i < presses.len() && i != j - 1
                                            ==> (#[trigger] presses[i]) is None);
                                }
                                assert(sr == spec_scan(
                                    wait_slots(ready@, presses, nkeys as int),
                                ));
                                assert(exists|ps: Seq<Option<u16>>|
                                    round_presses_ok(self.keys_seq(), ps) && sr == spec_scan(
                                        wait_slots(ready@, ps, nkeys as int),
                                    ));
                            }
                            return Ok(sr);
                        },
                        Ok(None) => {
                            proof {
                                assert(slots[j as int] == Slot::Key { ready: true, press: None });
                                assert(slots[j as int].decision() is None);
                                lemma_defers_step(slots, j as int);
                            }
                        },
                        Err(e) => {
                            return Err(Error::EvdevError(e));
                        },
                    }
                } else {
                    match grace_timer {
                        Some(t) => {
                            match sys::timerfd_drain(t) {
                                Ok(()) => {},
                                Err(e) => {
                                    return Err(Error::OsError(e));
                                },
                            }
                            fired = true;
                            proof {
                                assert(slots[j as int] == Slot::Grace { ready: true });
                                assert(slots[j as int].decision() is None);
                                lemma_defers_fire(slots, j as int);
                            }
                        },
                        None => {
                            proof {
                                assert(false);
                            }
                        },
                    }
                }
            } else {
                proof {
                    assert(slots[j as int].decision() is None);
                    assert(!slots[j as int].defers_to_suspend());
                    lemma_defers_step(slots, j as int);
                }
            }
            j = j + 1;
        }
        let sr = ScanResult { outcome: None, suspend_due: fired };
        proof {
            let slots = wait_slots(ready@, presses, nkeys as int);
            lemma_scan_mid(slots, 0, n as int);
            assert(sr == spec_scan(slots));
            assert(exists|ps: Seq<Option<u16>>|
                round_presses_ok(self.keys_seq(), ps) && sr == spec_scan(
                    wait_slots(ready@, ps, nkeys as int),
                ));
        }
        Ok(sr)
    }

    /// Blocks on the wait set of an already armed alarm until a wakeup
    /// condition fires, and reports which: the wait set holds the
    /// alarm's descriptor first, the key devices in registration order,
    /// and the grace timer last; each round's conclusion is the scan
    /// model's over the observed readiness, so the first ready
    /// descriptor that forces a return, in that fixed order, decides.
    /// With suspend due and a zero grace period, the suspend transition
    /// runs before the first readiness block.  A returned key press
    /// always lies in a registered device's filter.
    pub fn wait_armed(&self, alarm: &Alarm<'_>) -> (r: Result<WakeupReason, Error>)
        requires
            self.wf(),
        ensures
            r matches Ok(w) ==> (w matches WakeupReason::ExitKeyPressed(k) ==> exists|i: int|
                0 <= i < self.keys_seq().len() && has_code(
                    (#[trigger] self.keys_seq()[i]).filter_seq(),
                    k.0,
                )),
            r matches Err(e) ==> (e is SuspendError ==> self.spec_suspend()),
    {
        let mut fds = self.wait_set(alarm);
        let nkeys = self.wakeup_keys.len();
        let (mut suspend_now, grace_timer) = match self.set_suspend_timer(&mut fds) {
            Ok(p) => p,
            Err(e) => {
                return Err(e);
            },
        };
        let mut rounds: u64 = 0xffff_ffff;
        while rounds > 0
            invariant
                self.wf(),
                nkeys == self.keys_seq().len(),
                fds@.len() == nkeys + 1 || fds@.len() == nkeys + 2,
                grace_timer is Some <==> fds@.len() == nkeys + 2,
                suspend_now ==> self.spec_suspend(),
                grace_timer is Some ==> self.spec_suspend(),
            decreases rounds,
        {
            if suspend_now {
                match self.suspend_to_memory() {
                    Ok(()) => {},
                    Err(e) => {
                        return Err(e);
                    },
                }
                suspend_now = false;
            }
            let ready = match sys::poll_in(&fds) {
                Ok(v) => v,
                Err(e) => {
                    return Err(Error::OsError(e));
                },
            };
            match self.scan_round(alarm, &grace_timer, &ready) {
                Ok(sr) => {
                    if sr.suspend_due {
                        suspend_now = true;
                    }
                    match sr.outcome {
                        Some(w) => {
                            return Ok(w);
                        },
                        None => {},
                    }
                },
                Err(e) => {
                    return Err(e);
                },
            }
            rounds = rounds - 1;
        }
        Err(Error::OsError(4))
    }

    /// Arms the interval timer for the configured duration, waits for
    /// one wakeup condition, and disarms the timer on every exit path,
    /// so the interval timer cannot fire again for a stale wait.  A
    /// disarm failure is swallowed, since it happens on the way out.
    /// A returned key press always lies in a registered device's
    /// filter.
    pub fn wait(&self) -> (r: Result<WakeupReason, Error>)
        requires
            self.wf(),
            self.spec_timer().is_monotonic(),
        ensures
            r matches Ok(w) ==> (w matches WakeupReason::ExitKeyPressed(k) ==> exists|i: int|
                0 <= i < self.keys_seq().len() && has_code(
                    (#[trigger] self.keys_seq()[i]).filter_seq(),
                    k.0,
                )),
            r matches Err(e) ==> (e is SuspendError ==> self.spec_suspend()),
    {
        let alarm = match self.timer.set(&self.duration) {
            Ok(a) => a,
            Err(e) => {
                return Err(Error::TimerError(e));
            },
        };
        let r = self.wait_armed(&alarm);
        let _ = alarm.unset();
        r
    }
}

} // verus!
