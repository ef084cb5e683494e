use vstd::prelude::*;

verus! {

/// Number of bytes in an account identifier.
pub const PUBKEY_BYTES: usize = 32;

/// A fixed-size account identifier.
#[derive(Clone, Copy, Debug)]
pub struct Pubkey {
    pub bytes: [u8; 32],
}

impl View for Pubkey {
    type V = Seq<u8>;

    open spec fn view(&self) -> Seq<u8> {
        self.bytes@
    }
}

impl Pubkey {
    /// Builds an identifier from its bytes.
    pub fn new_from_array(bytes: [u8; 32]) -> (r: Pubkey)
        ensures
            r@ == bytes@,
    {
        Pubkey { bytes }
    }

    /// The identifier's bytes.
    pub fn to_bytes(&self) -> (r: [u8; 32])
        ensures
            r@ == self@,
    {
        self.bytes
    }
}

impl PartialEq for Pubkey {
    fn eq(&self, other: &Pubkey) -> (r: bool)
        ensures
            r == (self@ == other@),
    {
        let mut i: usize = 0;
        while i < PUBKEY_BYTES
            invariant
                i <= PUBKEY_BYTES,
                self@.len() == PUBKEY_BYTES,
                other@.len() == PUBKEY_BYTES,
                forall|j: int| 0 <= j < i ==> self@[j] == other@[j],
            decreases PUBKEY_BYTES - i,
        {
            if self.bytes[i] != other.bytes[i] {
                return false;
            }
            i = i + 1;
        }
        assert(self@ =~= other@);
        true
    }
}

impl vstd::std_specs::cmp::PartialEqSpecImpl for Pubkey {
    open spec fn obeys_eq_spec() -> bool {
        true
    }

    open spec fn eq_spec(&self, other: &Pubkey) -> bool {
        self@ == other@
    }
}

impl Eq for Pubkey {
}

} // verus!
