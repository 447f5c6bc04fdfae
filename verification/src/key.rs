//! Account addresses.
use vstd::prelude::*;
use vstd::std_specs::cmp::PartialEqSpecImpl;

verus! {

/// Thirty-two zero bytes.
pub const ZERO: [u8; 32] = [
    0, 0, 0, 0, 0, 0, 0, 0,
    0, 0, 0, 0, 0, 0, 0, 0,
    0, 0, 0, 0, 0, 0, 0, 0,
    0, 0, 0, 0, 0, 0, 0, 0,
];

/// A 32-byte account address.
#[derive(Clone, Copy, Debug, Eq, Hash)]
pub struct Key {
    pub bytes: [u8; 32],
}

impl View for Key {
    type V = Seq<u8>;

    open spec fn view(&self) -> Seq<u8> {
        self.bytes@
    }
}

impl PartialEq for Key {
    fn eq(&self, other: &Key) -> (r: bool) {
        let mut i: usize = 0;
        while i < 32
            invariant
                i <= 32,
                forall|j: int| 0 <= j < i ==> self.bytes[j] == other.bytes[j],
            decreases 32 - i,
        {
            if self.bytes[i] != other.bytes[i] {
                return false;
            }
            i += 1;
        }
        assert(self.bytes =~= other.bytes);
        true
    }
}

impl PartialEqSpecImpl for Key {
    open spec fn obeys_eq_spec() -> bool {
        true
    }

    open spec fn eq_spec(&self, other: &Key) -> bool {
        *self == *other
    }
}

impl Key {
    /// The all-zero key, which stands for "no key".
    pub open spec fn zero() -> Key {
        Key { bytes: ZERO }
    }

    /// The key made of `bytes`.
    pub fn new(bytes: [u8; 32]) -> (r: Key)
        ensures
            r.bytes == bytes,
    {
        Key { bytes }
    }

    /// The bytes of the key, as a seed for an address derivation.
    pub fn to_vec(&self) -> (r: Vec<u8>)
        ensures
            r@ == self@,
    {
        let mut r: Vec<u8> = Vec::new();
        let mut i: usize = 0;
        while i < 32
            invariant
                i <= 32,
                r@ == self@.take(i as int),
            decreases 32 - i,
        {
            r.push(self.bytes[i]);
            assert(self@.take(i + 1) =~= self@.take(i as int).push(self@[i as int]));
            i += 1;
        }
        assert(self@.take(32) =~= self@);
        r
    }
}

impl Default for Key {
    fn default() -> (r: Key)
        ensures
            r == Key::zero(),
    {
        Key { bytes: ZERO }
    }
}

/// Two keys with the same bytes are the same key.
pub proof fn lemma_key_ext(a: Key, b: Key)
    requires
        a@ == b@,
    ensures
        a == b,
{
    assert(a.bytes =~= b.bytes);
}

} // verus!
