//! Owner identities.

use vstd::prelude::*;

verus! {

/// The identity under which todos and the id counter are kept: an opaque
/// key of 32 bytes, of which only equality matters. A shorter address is
/// padded to this width before it gets here.
#[derive(Debug, Clone, Copy, PartialEq, Eq, Hash)]
pub struct Owner {
    pub bytes: [u8; 32],
}

impl View for Owner {
    type V = Seq<u8>;

    open spec fn view(&self) -> Seq<u8> {
        self.bytes@
    }
}

impl Owner {
    /// The owner with the given key.
    pub fn new(bytes: [u8; 32]) -> (r: Owner)
        ensures
            r@ == bytes@,
    {
        Owner { bytes }
    }

    /// Whether the two identities are the same one.
    pub fn same_as(&self, other: &Owner) -> (r: bool)
        ensures
            r == (self@ == other@),
    {
        let mut i: usize = 0;
        while i < 32
            invariant
                i <= 32,
                forall|j: int| 0 <= j < i ==> self.bytes@[j] == other.bytes@[j],
            decreases 32 - i,
        {
            if self.bytes[i] != other.bytes[i] {
                return false;
            }
            i += 1;
        }
        assert(self.bytes@ =~= other.bytes@);
        true
    }
}

} // verus!
