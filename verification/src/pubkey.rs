use vstd::prelude::*;

verus! {

/// Number of bytes in an address.
pub const PUBKEY_BYTES: usize = 32;

/// The address of a record, a mint or a signer: thirty-two bytes.
#[derive(Clone, Copy, Debug, PartialEq, Eq)]
pub struct Pubkey {
    pub bytes: [u8; 32],
}

impl View for Pubkey {
    type V = Seq<u8>;

    open spec fn view(&self) -> Seq<u8> {
        self.bytes@
    }
}

impl Pubkey {
    /// Wraps thirty-two bytes as an address.
    pub fn new_from_array(bytes: [u8; 32]) -> (key: Pubkey)
        ensures
            key@ == bytes@,
            key.bytes == bytes,
    {
        Pubkey { bytes }
    }

    /// The bytes of the address.
    pub fn to_bytes(&self) -> (bytes: [u8; 32])
        ensures
            bytes@ == self@,
            bytes == self.bytes,
    {
        self.bytes
    }

    /// Whether two addresses hold the same bytes.
    pub fn same(&self, other: &Pubkey) -> (equal: bool)
        ensures
            equal == (self@ == other@),
            equal == (*self == *other),
    {
        let mut i: usize = 0;
        while i < 32
            invariant
                i <= 32,
                forall|j: int| 0 <= j < i ==> self.bytes@[j] == other.bytes@[j],
            decreases 32 - i,
        {
            if self.bytes[i] != other.bytes[i] {
                assert(self@[i as int] != other@[i as int]);
                return false;
            }
            i += 1;
        }
        assert(self@ =~= other@);
        proof {
            lemma_pubkey_view_injective(*self, *other);
        }
        true
    }
}

/// Addresses with the same bytes are the same address.
pub proof fn lemma_pubkey_view_injective(a: Pubkey, b: Pubkey)
    requires
        a@ == b@,
    ensures
        a == b,
{
    assert(a.bytes@ == b.bytes@);
    assert(a.bytes == b.bytes) by {
        vstd::array::axiom_array_ext_equal(a.bytes, b.bytes);
    }
}

} // verus!
