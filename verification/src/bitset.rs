//! Bit-indexed byte buffers, as capability-query calls return them.

use vstd::prelude::*;

verus! {

/// Whether bit `key` is set in a byte-packed bitmap.  A bit beyond the
/// buffer counts as clear.
pub open spec fn bit_of(bytes: Seq<u8>, key: int) -> bool {
    &&& 0 <= key
    &&& key / 8 < bytes.len()
    &&& bytes[key / 8] & (1u8 << ((key % 8) as u8)) != 0
}

/// A byte buffer of `n` zero bytes.
pub(crate) fn zeroed_vec(n: usize) -> (v: Vec<u8>)
    ensures
        v@.len() == n,
        forall|j: int| 0 <= j < n ==> v@[j] == 0u8,
{
    let mut v: Vec<u8> = Vec::new();
    let mut i: usize = 0;
    while i < n
        invariant
            i <= n,
            v@.len() == i,
            forall|j: int| 0 <= j < i ==> v@[j] == 0u8,
        decreases n - i,
    {
        v.push(0);
        i = i + 1;
    }
    v
}

/// A compact bit-indexed byte buffer.  Device capability bitmasks are
/// decoded through it: one bit per event type or key code.
pub struct BitSet(Vec<u8>);

impl View for BitSet {
    type V = Seq<u8>;

    closed spec fn view(&self) -> Seq<u8> {
        self.0@
    }
}

impl BitSet {
    /// A cleared buffer large enough to index `bits` bits.
    pub fn with_size(bits: usize) -> (r: BitSet)
        requires
            bits / 8 < usize::MAX,
        ensures
            r@.len() == bits / 8 + 1,
            forall|k: int| !bit_of(r@, k),
    {
        let v = zeroed_vec(bits / 8 + 1);
        proof {
            assert forall|k: int| !bit_of(v@, k) by {
                if 0 <= k && k / 8 < v@.len() {
                    assert(v@[k / 8] == 0u8);
                    assert(0u8 & (1u8 << ((k % 8) as u8)) == 0u8) by (bit_vector);
                }
            }
        }
        BitSet(v)
    }

    /// Wraps bytes that a capability query filled in.
    pub fn from_bytes(bytes: Vec<u8>) -> (r: BitSet)
        ensures
            r@ == bytes@,
    {
        BitSet(bytes)
    }

    /// The buffer length in bytes.
    pub fn len_bytes(&self) -> (n: usize)
        ensures
            n == self@.len(),
    {
        self.0.len()
    }

    /// The raw bytes.
    pub fn as_bytes(&self) -> (b: &Vec<u8>)
        ensures
            b@ == self@,
    {
        &self.0
    }

    /// Whether bit `key` is set.
    pub fn is_set(&self, key: usize) -> (r: bool)
        requires
            key / 8 < self@.len(),
        ensures
            r == bit_of(self@, key as int),
    {
        self.0[key / 8] & (1u8 << ((key % 8) as u8)) != 0
    }

    /// Whether bit `key` is set, with a bit beyond the buffer reported
    /// as clear.
    pub fn get(&self, key: usize) -> (r: bool)
        ensures
            r == bit_of(self@, key as int),
    {
        if key / 8 < self.0.len() {
            self.is_set(key)
        } else {
            false
        }
    }
}

} // verus!
