//! Input devices: capability-filtered key devices and their discovery.

use vstd::prelude::*;

use crate::bitset::{bit_of, zeroed_vec, BitSet};
use crate::keycode::KeyCode;
use crate::sys;
use crate::sys::ReadOutcome;

verus! {

/// Event type number of key events (`EV_KEY`).
pub const EV_KEY: u16 = 1;

/// Number of event types (`EV_CNT`): the event-type capability bitmap
/// indexes this many bits.
pub const EV_CNT: u16 = 32;

/// Size in bytes of one raw input event record: two 8-byte time fields,
/// a 2-byte type, a 2-byte code and a 4-byte value.
pub const EVENT_RECORD_LEN: usize = 24;

/// How many queued records one drain inspects at most.  A non-blocking
/// device reports would-block once its bounded kernel queue is empty,
/// so no real device reaches this cap within one call.
pub const DRAIN_CAP: u32 = 65536;

/// The errno value of an input/output failure, reported for a device
/// that never drains.
const ERRNO_IO: i32 = 5;

/// What can go wrong around input devices.
#[derive(Clone, Debug)]
pub enum Error {
    /// An operating-system call failed; holds the errno value.
    OsError(i32),
    /// A record read ended short of one full record.
    UnexpectedEof,
    /// An input device file could not be opened; holds its path.
    OpenError(String),
    /// The device path pattern was malformed.
    PatternError,
    /// A matched path could not be examined.
    GlobError,
    /// No device supported any requested key.
    NoInputDevicesFound,
}

/// The decoded fields of one raw input event record.
#[derive(Clone, Copy, Debug, PartialEq, Eq, Structural)]
pub struct InputEvent {
    pub event_type: u16,
    pub code: u16,
    pub value: i32,
}

/// The record fields read little-endian out of one raw record's bytes:
/// the type at offset 16, the code at 18, the value at 20.
pub open spec fn spec_decode_event(b: Seq<u8>) -> InputEvent
    recommends
        b.len() >= EVENT_RECORD_LEN,
{
    InputEvent {
        event_type: (b[16] as u16) | ((b[17] as u16) << 8),
        code: (b[18] as u16) | ((b[19] as u16) << 8),
        value: ((b[20] as u32) | ((b[21] as u32) << 8) | ((b[22] as u32) << 16) | (
        (b[23] as u32) << 24)) as i32,
    }
}

/// Decodes one raw record, exactly as `spec_decode_event` reads it.
pub fn decode_event(b: &Vec<u8>) -> (e: InputEvent)
    requires
        b@.len() >= EVENT_RECORD_LEN,
    ensures
        e == spec_decode_event(b@),
{
    InputEvent {
        event_type: (b[16] as u16) | ((b[17] as u16) << 8),
        code: (b[18] as u16) | ((b[19] as u16) << 8),
        value: ((b[20] as u32) | ((b[21] as u32) << 8) | ((b[22] as u32) << 16) | (
        (b[23] as u32) << 24)) as i32,
    }
}

/// Whether a record reports a key press or repeat: a key-type event
/// with a nonzero value (zero is a release).
pub open spec fn spec_is_press(e: InputEvent) -> bool {
    e.event_type == EV_KEY && e.value != 0
}

/// Whether `codes` holds the code `code`.
pub open spec fn has_code(codes: Seq<KeyCode>, code: u16) -> bool {
    exists|i: int| 0 <= i < codes.len() && codes[i].0 == code
}

/// The code of the first record in `records` that is a key press with a
/// code in `filter`, if any.
pub open spec fn spec_first_match(filter: Seq<KeyCode>, records: Seq<InputEvent>) -> Option<u16>
    decreases records.len(),
{
    if records.len() == 0 {
        None
    } else if spec_is_press(records[0]) && has_code(filter, records[0].code) {
        Some(records[0].code)
    } else {
        spec_first_match(filter, records.drop_first())
    }
}

/// No match is found exactly when no record is a filtered press.
pub proof fn lemma_first_match_none(filter: Seq<KeyCode>, records: Seq<InputEvent>)
    ensures
        spec_first_match(filter, records) is None <==> forall|i: int|
            0 <= i < records.len() ==> !(spec_is_press(#[trigger] records[i]) && has_code(
                filter,
                records[i].code,
            )),
    decreases records.len(),
{
    if records.len() > 0 {
        lemma_first_match_none(filter, records.drop_first());
        assert(forall|i: int|
            1 <= i < records.len() ==> records.drop_first()[i - 1] == #[trigger] records[i]);
    }
}

/// Whether `codes` holds `code`, decided by a scan.
fn contains_code(codes: &Vec<KeyCode>, code: u16) -> (r: bool)
    ensures
        r == has_code(codes@, code),
{
    let n = codes.len();
    let mut i: usize = 0;
    while i < n
        invariant
            i <= n == codes@.len(),
            forall|j: int| 0 <= j < i ==> codes@[j].0 != code,
        decreases n - i,
    {
        if codes[i].0 == code {
            return true;
        }
        i = i + 1;
    }
    false
}

/// An opened, non-blocking input device restricted to the key codes it
/// may report.
pub struct KeyDevice {
    fd: i32,
    filter: Vec<KeyCode>,
}

impl KeyDevice {
    /// The device's file descriptor.
    pub closed spec fn spec_fd(self) -> i32 {
        self.fd
    }

    /// The codes the device may report.
    pub closed spec fn filter_seq(self) -> Seq<KeyCode> {
        self.filter@
    }

    /// A device never carries an empty filter.
    pub open spec fn wf(self) -> bool {
        self.filter_seq().len() > 0
    }

    /// Builds a device from an already probed descriptor and filter.
    pub fn from_parts(fd: i32, filter: Vec<KeyCode>) -> (d: KeyDevice)
        requires
            filter@.len() > 0,
        ensures
            d.spec_fd() == fd,
            d.filter_seq() == filter@,
            d.wf(),
    {
        KeyDevice { fd, filter }
    }

    /// Restricts an opened device to the requested keys its hardware
    /// supports, from the two capability bitmaps a probe returned.  The
    /// device materializes exactly when it advertises key events and
    /// supports at least one requested key; its filter then holds a
    /// requested code exactly when the key bitmap marks it supported.
    pub fn with_filter(fd: i32, requested: &Vec<KeyCode>, event_bits: &BitSet, key_bits: &BitSet) -> (r:
        Option<KeyDevice>)
        ensures
            match r {
                Some(d) => {
                    &&& d.spec_fd() == fd
                    &&& d.wf()
                    &&& bit_of(event_bits@, EV_KEY as int)
                    &&& forall|c: u16|
                        has_code(d.filter_seq(), c) <==> (has_code(requested@, c) && bit_of(
                            key_bits@,
                            c as int,
                        ))
                },
                None => !bit_of(event_bits@, EV_KEY as int) || (forall|i: int|
                    0 <= i < requested@.len() ==> !bit_of(
                        key_bits@,
                        #[trigger] requested@[i].0 as int,
                    )),
            },
    {
        if !event_bits.get(EV_KEY as usize) {
            return None;
        }
        let n = requested.len();
        let mut filter: Vec<KeyCode> = Vec::new();
        let mut i: usize = 0;
        while i < n
            invariant
                i <= n == requested@.len(),
                forall|c: u16|
                    has_code(filter@, c) <==> (has_code(requested@.subrange(0, i as int), c)
                        && bit_of(key_bits@, c as int)),
            decreases n - i,
        {
            let k = requested[i];
            let ghost prev_sub = requested@.subrange(0, i as int);
            let ghost next_sub = requested@.subrange(0, i + 1);
            proof {
                assert(next_sub[i as int] == requested@[i as int]);
                assert forall|c: u16| has_code(next_sub, c) implies (c == requested@[i as int].0
                    || has_code(prev_sub, c)) by {
                    let j = choose|j: int| 0 <= j < next_sub.len() && next_sub[j].0 == c;
                    if j < i as int {
                        assert(prev_sub[j].0 == c);
                    }
                }
                assert forall|c: u16| (c == requested@[i as int].0 || has_code(prev_sub, c))
                    implies has_code(next_sub, c) by {
                    if has_code(prev_sub, c) {
                        let j = choose|j: int| 0 <= j < prev_sub.len() && prev_sub[j].0 == c;
                        assert(next_sub[j].0 == c);
                    }
                }
            }
            let supported = key_bits.get(k.0 as usize);
            let ghost prev_f = filter@;
            if supported {
                filter.push(k);
                proof {
                    assert(filter@[filter@.len() - 1].0 == k.0);
                    assert forall|c: u16| has_code(filter@, c) implies (c == k.0 || has_code(
                        prev_f,
                        c,
                    )) by {
                        let j = choose|j: int| 0 <= j < filter@.len() && filter@[j].0 == c;
                        if j < prev_f.len() {
                            assert(prev_f[j].0 == c);
                        }
                    }
                    assert forall|c: u16| (c == k.0 || has_code(prev_f, c)) implies has_code(
                        filter@,
                        c,
                    ) by {
                        if has_code(prev_f, c) {
                            let j = choose|j: int| 0 <= j < prev_f.len() && prev_f[j].0 == c;
                            assert(filter@[j].0 == c);
                        }
                    }
                }
            }
            proof {
                assert((k.0 as usize) as int == k.0 as int);
                assert forall|c: u16| has_code(filter@, c) implies (has_code(next_sub, c)
                    && bit_of(key_bits@, c as int)) by {
                    if supported {
                        if c == k.0 {
                            assert(bit_of(key_bits@, k.0 as int));
                        } else {
                            assert(has_code(prev_f, c));
                        }
                    } else {
                        assert(has_code(prev_f, c));
                    }
                }
                assert forall|c: u16| (has_code(next_sub, c) && bit_of(key_bits@, c as int))
                    implies has_code(filter@, c) by {
                    if c == k.0 {
                        assert(supported);
                    } else {
                        assert(has_code(prev_sub, c));
                        assert(has_code(prev_f, c));
                    }
                }
            }
            i = i + 1;
        }
        proof {
            assert(requested@.subrange(0, n as int) =~= requested@);
        }
        if filter.len() == 0 {
            proof {
                assert forall|ii: int| 0 <= ii < requested@.len() implies !bit_of(
                    key_bits@,
                    (#[trigger] requested@[ii].0) as int,
                ) by {
                    if bit_of(key_bits@, requested@[ii].0 as int) {
                        assert(has_code(requested@, requested@[ii].0));
                        assert(has_code(filter@, requested@[ii].0));
                        let j = choose|j: int|
                            0 <= j < filter@.len() && filter@[j].0 == requested@[ii].0;
                        assert(false);
                    }
                }
            }
            return None;
        }
        Some(KeyDevice { fd, filter })
    }

    /// The raw descriptor, for the readiness wait set.
    pub fn as_raw_fd(&self) -> (fd: i32)
        ensures
            fd == self.spec_fd(),
    {
        self.fd
    }

    /// Drains the device queue for the next key press the filter
    /// passes.  Irrelevant records are read and discarded; a would-block
    /// condition is the normal "no event" answer and is never conflated
    /// with a failure: a short record is a fatal end-of-data error, any
    /// other read failure is a fatal operating-system error, and a
    /// device that streams the whole drain cap without ever reporting
    /// would-block is treated as failed with an input/output errno.
    /// A returned code always lies in the device's filter.
    pub fn next_key_press(&self) -> (r: Result<Option<KeyCode>, Error>)
        ensures
            r matches Ok(Some(k)) ==> has_code(self.filter_seq(), k.0),
            r matches Err(e) ==> (e is OsError || e is UnexpectedEof),
    {
        let mut budget: u32 = DRAIN_CAP;
        while budget > 0
            invariant
                true,
            decreases budget,
        {
            let mut buf = zeroed_vec(EVENT_RECORD_LEN);
            match sys::read_fd(self.fd, &mut buf) {
                ReadOutcome::WouldBlock => {
                    return Ok(None);
                },
                ReadOutcome::Failed(e) => {
                    return Err(Error::OsError(e));
                },
                ReadOutcome::Read(n) => {
                    if n != EVENT_RECORD_LEN {
                        return Err(Error::UnexpectedEof);
                    }
                    let ev = decode_event(&buf);
                    if ev.event_type == EV_KEY && ev.value != 0 {
                        if contains_code(&self.filter, ev.code) {
                            return Ok(Some(KeyCode(ev.code)));
                        }
                    }
                },
            }
            budget = budget - 1;
        }
        Err(Error::OsError(ERRNO_IO))
    }

    /// The drain decision of `next_key_press` over an injected queue of
    /// records: the first filtered press wins, and "no event" comes
    /// exactly when no queued record is a key press with a filtered
    /// code.
    pub fn next_key_press_in(&self, records: &Vec<InputEvent>) -> (r: Option<KeyCode>)
        ensures
            match r {
                Some(k) => spec_first_match(self.filter_seq(), records@) == Some(k.0) && has_code(
                    self.filter_seq(),
                    k.0,
                ),
                None => spec_first_match(self.filter_seq(), records@) is None,
            },
            r is None <==> forall|i: int|
                0 <= i < records@.len() ==> !(spec_is_press(#[trigger] records@[i]) && has_code(
                    self.filter_seq(),
                    records@[i].code,
                )),
    {
        let n = records.len();
        proof {
            assert(records@.subrange(0, n as int) =~= records@);
        }
        let mut i: usize = 0;
        while i < n
            invariant
                i <= n == records@.len(),
                spec_first_match(self.filter_seq(), records@) == spec_first_match(
                    self.filter_seq(),
                    records@.subrange(i as int, n as int),
                ),
            decreases n - i,
        {
            let ev = records[i];
            proof {
                let rest = records@.subrange(i as int, n as int);
                assert(rest[0] == records@[i as int]);
                assert(rest.drop_first() =~= records@.subrange(i + 1, n as int));
            }
            if ev.event_type == EV_KEY && ev.value != 0 {
                if contains_code(&self.filter, ev.code) {
                    proof {
                        lemma_first_match_none(self.filter_seq(), records@);
                    }
                    return Some(KeyCode(ev.code));
                }
            }
            i = i + 1;
        }
        proof {
            assert(records@.subrange(n as int, n as int) =~= Seq::<InputEvent>::empty());
            lemma_first_match_none(self.filter_seq(), records@);
        }
        None
    }
}

/// What probing one glob-matched candidate path yielded.
pub enum DeviceProbe {
    /// The path would not open read-only non-blocking; holds the path.
    OpenFailed(String),
    /// The device opened; holds its descriptor and the two capability
    /// bitmaps the device reported.
    Opened { fd: i32, event_bits: BitSet, key_bits: BitSet },
}

impl DeviceProbe {
    /// Whether this probe yields a device for the requested keys: it
    /// opened, advertises key events, and supports a requested key.
    pub open spec fn passes(self, keys: Seq<KeyCode>) -> bool {
        &&& self matches DeviceProbe::Opened { fd, event_bits, key_bits }
        &&& bit_of(event_bits@, EV_KEY as int)
        &&& exists|i: int|
            0 <= i < keys.len() && bit_of(key_bits@, #[trigger] keys[i].0 as int)
    }

    /// Whether `d` is the device this probe materializes for `keys`.
    pub open spec fn yields(self, keys: Seq<KeyCode>, d: KeyDevice) -> bool {
        &&& self matches DeviceProbe::Opened { fd, event_bits, key_bits }
        &&& bit_of(event_bits@, EV_KEY as int)
        &&& d.spec_fd() == fd
        &&& d.wf()
        &&& forall|c: u16|
            has_code(d.filter_seq(), c) <==> (has_code(keys, c) && bit_of(key_bits@, c as int))
    }
}

/// The devices of `devs` are exactly those the passing probes yield, in
/// probe order; `idx` lists the position each device's probe holds.
pub open spec fn devices_match_probes(
    keys: Seq<KeyCode>,
    probes: Seq<DeviceProbe>,
    devs: Seq<KeyDevice>,
    idx: Seq<int>,
) -> bool {
    &&& idx.len() == devs.len()
    &&& forall|k: int| 0 <= k < idx.len() ==> 0 <= #[trigger] idx[k] < probes.len()
    &&& forall|k: int| 0 <= k && k + 1 < idx.len() ==> #[trigger] idx[k] < idx[k + 1]
    &&& forall|k: int|
        0 <= k < devs.len() ==> probes[idx[k]].yields(keys, #[trigger] devs[k])
    &&& forall|j: int|
        0 <= j < probes.len() && #[trigger] probes[j].passes(keys) ==> exists|k: int|
            0 <= k < idx.len() && idx[k] == j
}

/// Discovery of key devices for a chosen set of key codes.
pub struct KeyDeviceBuilder {
    keys: Vec<KeyCode>,
}

impl KeyDeviceBuilder {
    /// The requested key codes.
    pub closed spec fn keys_seq(self) -> Seq<KeyCode> {
        self.keys@
    }

    /// Starts discovery for the given key codes.
    pub fn with_keys(keys: Vec<KeyCode>) -> (b: KeyDeviceBuilder)
        ensures
            b.keys_seq() == keys@,
    {
        KeyDeviceBuilder { keys }
    }

    /// Decides discovery over the probes of the glob-matched paths, in
    /// their expansion order.  The first path that failed to open is a
    /// fatal error carrying that path; a device that lacks key events
    /// or supports no requested key is discarded without error; zero
    /// matched devices after a clean scan is the "no input devices
    /// found" error.
    #[verifier::rlimit(50)]
    pub fn find_probed(self, probes: Vec<DeviceProbe>) -> (r: Result<Vec<KeyDevice>, Error>)
        ensures
            match r {
                Ok(devs) => {
                    &&& devs@.len() > 0
                    &&& forall|j: int| 0 <= j < probes@.len() ==> !((#[trigger] probes@[j]) is OpenFailed)
                    &&& exists|idx: Seq<int>|
                        devices_match_probes(self.keys_seq(), probes@, devs@, idx)
                },
                Err(Error::OpenError(p)) => exists|j: int|
                    {
                        &&& 0 <= j < probes@.len()
                        &&& #[trigger] probes@[j] matches DeviceProbe::OpenFailed(q) && q@ == p@
                        &&& forall|i: int| 0 <= i < j ==> !((#[trigger] probes@[i]) is OpenFailed)
                    },
                Err(Error::NoInputDevicesFound) => {
                    &&& forall|j: int| 0 <= j < probes@.len() ==> !((#[trigger] probes@[j]) is OpenFailed)
                    &&& forall|j: int|
                        0 <= j < probes@.len() ==> !(#[trigger] probes@[j].passes(self.keys_seq()))
                },
                _ => false,
            },
    {
        let n = probes.len();
        let mut devs: Vec<KeyDevice> = Vec::new();
        let ghost mut gidx: Seq<int> = Seq::empty();
        let mut i: usize = 0;
        while i < n
            invariant
                i <= n == probes@.len(),
                forall|j: int| 0 <= j < i ==> !((#[trigger] probes@[j]) is OpenFailed),
                gidx.len() == devs@.len(),
                forall|k: int| 0 <= k < gidx.len() ==> 0 <= #[trigger] gidx[k] < i,
                forall|k: int| 0 <= k && k + 1 < gidx.len() ==> #[trigger] gidx[k] < gidx[k + 1],
                forall|k: int|
                    0 <= k < devs@.len() ==> probes@[gidx[k]].yields(
                        self.keys_seq(),
                        #[trigger] devs@[k],
                    ),
                forall|j: int|
                    0 <= j < i && #[trigger] probes@[j].passes(self.keys_seq()) ==> exists|k: int|
                        0 <= k < gidx.len() && gidx[k] == j,
            decreases n - i,
        {
            match &probes[i] {
                DeviceProbe::OpenFailed(path) => {
                    return Err(Error::OpenError(path.clone()));
                },
                DeviceProbe::Opened { fd, event_bits, key_bits } => {
                    match KeyDevice::with_filter(*fd, &self.keys, event_bits, key_bits) {
                        Some(d) => {
                            devs.push(d);
                            proof {
                                let old_gidx = gidx;
                                gidx = gidx.push(i as int);
                                assert(forall|k: int|
                                    0 <= k < old_gidx.len() ==> #[trigger] gidx[k] == old_gidx[k]);
                                assert(devs@.last() == d);
                                assert(probes@[i as int].yields(self.keys_seq(), d));
                                assert(probes@[i as int].passes(self.keys_seq())) by {
                                    let c = d.filter_seq()[0].0;
                                    assert(has_code(d.filter_seq(), c));
                                    assert(has_code(self.keys_seq(), c) && bit_of(
                                        probes@[i as int]->key_bits@,
                                        c as int,
                                    ));
                                    let j = choose|j: int|
                                        0 <= j < self.keys_seq().len() && self.keys_seq()[j].0 == c;
                                    assert(bit_of(
                                        probes@[i as int]->key_bits@,
                                        self.keys_seq()[j].0 as int,
                                    ));
                                }
                                assert forall|j: int|
                                    0 <= j < i + 1 && #[trigger] probes@[j].passes(
                                        self.keys_seq(),
                                    ) implies exists|k: int|
                                    0 <= k < gidx.len() && gidx[k] == j by {
                                    if j == i as int {
                                        assert(gidx[gidx.len() - 1] == j);
                                    } else {
                                        let k = choose|k: int|
                                            0 <= k < old_gidx.len() && old_gidx[k] == j;
                                        assert(gidx[k] == j);
                                    }
                                }
                            }
                        },
                        None => {
                            proof {
                                if probes@[i as int].passes(self.keys_seq()) {
                                    let j = choose|j: int|
                                        0 <= j < self.keys_seq().len() && bit_of(
                                            probes@[i as int]->key_bits@,
                                            self.keys_seq()[j].0 as int,
                                        );
                                    assert(false);
                                }
                            }
                        },
                    }
                },
            }
            i = i + 1;
        }
        if devs.len() == 0 {
            return Err(Error::NoInputDevicesFound);
        }
        proof {
            assert(devices_match_probes(self.keys_seq(), probes@, devs@, gidx));
            assert(exists|idx: Seq<int>|
                devices_match_probes(self.keys_seq(), probes@, devs@, idx));
        }
        Ok(devs)
    }
}

} // verus!
