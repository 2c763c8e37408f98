//! The identities that a worker deals in.

use vstd::prelude::*;

verus! {

/// The number of a worker among those of one authority.
pub type WorkerId = u32;

/// The public key of an authority, by its bytes.
#[derive(Debug, PartialEq, Eq)]
pub struct PublicKey {
    pub bytes: Vec<u8>,
}

impl View for PublicKey {
    type V = Seq<u8>;

    open spec fn view(&self) -> Seq<u8> {
        self.bytes@
    }
}

impl Clone for PublicKey {
    fn clone(&self) -> (copy: Self)
        ensures
            copy@ == self@,
            copy.bytes@ == self.bytes@,
    {
        let bytes: Vec<u8> = self.bytes.clone();
        assert(bytes@ =~= self.bytes@);
        PublicKey { bytes }
    }
}

impl PublicKey {
    /// Whether two keys are the same, byte for byte.
    pub fn same_as(&self, other: &PublicKey) -> (same: bool)
        ensures
            same == (self@ == other@),
            same == (self.bytes@ == other.bytes@),
    {
        if self.bytes.len() != other.bytes.len() {
            return false;
        }
        let mut i: usize = 0;
        while i < self.bytes.len()
            invariant
                i <= self.bytes.len(),
                self.bytes.len() == other.bytes.len(),
                forall|k: int| 0 <= k < i ==> self.bytes@[k] == other.bytes@[k],
            decreases self.bytes.len() - i,
        {
            if self.bytes[i] != other.bytes[i] {
                return false;
            }
            i = i + 1;
        }
        assert(self@ =~= other@);
        true
    }
}

/// A copy of a key is the same key, and two keys are the same only if they have the same bytes.
pub proof fn law_keys_are_told_apart_by_their_bytes(
    a: PublicKey,
    b: PublicKey,
    same: bool,
    copy: PublicKey,
)
    requires
        call_ensures(PublicKey::same_as, (&a, &b), same),
        call_ensures(PublicKey::clone, (&a,), copy),
    ensures
        same <==> a.bytes@ == b.bytes@,
        copy.bytes@ == a.bytes@,
{
}

} // verus!
