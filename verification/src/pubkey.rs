//! Account identities.

use vstd::prelude::*;

verus! {

/// A 32-byte account identity. The all-zero key stands for "nobody".
#[derive(Clone, Copy, Debug, Eq)]
pub struct Pubkey {
    pub bytes: [u8; 32],
}

impl PartialEq for Pubkey {
    fn eq(&self, other: &Self) -> (r: bool) {
        let mut i: usize = 0;
        while i < 32
            invariant
                0 <= i <= 32,
                forall|j: int| 0 <= j < i ==> self.bytes[j] == other.bytes[j],
            decreases 32 - i,
        {
            if self.bytes[i] != other.bytes[i] {
                return false;
            }
            i += 1;
        }
        assert(self.bytes =~= other.bytes);
        true
    }
}

impl vstd::std_specs::cmp::PartialEqSpecImpl for Pubkey {
    open spec fn obeys_eq_spec() -> bool {
        true
    }

    open spec fn eq_spec(&self, other: &Self) -> bool {
        *self == *other
    }
}

impl Default for Pubkey {
    fn default() -> (key: Self)
        ensures
            key == Pubkey::zero(),
    {
        let key = Pubkey { bytes: [0u8; 32] };
        assert(key.bytes =~= Pubkey::zero().bytes);
        key
    }
}

impl View for Pubkey {
    type V = Seq<u8>;

    open spec fn view(&self) -> Seq<u8> {
        self.bytes@
    }
}

impl Pubkey {
    /// The all-zero key.
    pub open spec fn zero() -> Pubkey {
        Pubkey { bytes: vstd::array::spec_array_fill_for_copy_type::<u8, 32>(0u8) }
    }

    /// Wraps 32 raw bytes.
    pub fn new_from_array(bytes: [u8; 32]) -> (key: Self)
        ensures
            key.bytes == bytes,
    {
        Pubkey { bytes }
    }

    /// The raw bytes of the key.
    pub fn to_bytes(&self) -> (bytes: [u8; 32])
        ensures
            bytes == self.bytes,
    {
        self.bytes
    }

    /// Whether this is the all-zero key.
    pub fn is_default(&self) -> (r: bool)
        ensures
            r == (*self == Pubkey::zero()),
    {
        let zero = Pubkey::default();
        *self == zero
    }
}

/// Two keys are equal exactly when their bytes are.
pub proof fn lemma_key_equality(a: Pubkey, b: Pubkey)
    ensures
        a == b <==> a@ == b@,
{
    if a@ == b@ {
        assert(a.bytes =~= b.bytes);
    }
}

} // verus!
