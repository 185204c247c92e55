use vstd::prelude::*;

verus! {

/// A 32-byte account or identity handle of the ledger.
#[derive(Clone, Copy, Debug)]
pub struct Address {
    pub bytes: [u8; 32],
}

impl View for Address {
    type V = Seq<u8>;

    open spec fn view(&self) -> Seq<u8> {
        self.bytes@
    }
}

/// The handle whose bytes are `s` (for a sequence of 32 bytes).
pub open spec fn address_of(s: Seq<u8>) -> Address {
    choose|a: Address| a@ == s
}

/// Two handles with the same bytes are the same handle.
pub proof fn lemma_address_of(a: Address)
    ensures
        address_of(a@) == a,
{
    let b = address_of(a@);
    assert(b@ == a@);
    assert(b.bytes =~= a.bytes);
}

impl Address {
    pub fn new(bytes: [u8; 32]) -> (r: Address)
        ensures
            r.bytes == bytes,
    {
        Address { bytes }
    }

    /// Byte-for-byte comparison of two handles.
    pub fn same(&self, other: &Address) -> (r: bool)
        ensures
            r == (self@ == other@),
    {
        let mut i: usize = 0;
        while i < 32
            invariant
                0 <= i <= 32,
                self@.len() == 32,
                other@.len() == 32,
                forall|j: int| 0 <= j < i ==> self@[j] == other@[j],
            decreases 32 - i,
        {
            if self.bytes[i] != other.bytes[i] {
                return false;
            }
            i = i + 1;
        }
        assert(self@ =~= other@);
        true
    }
}

} // verus!
