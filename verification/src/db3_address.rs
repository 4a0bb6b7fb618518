use vstd::prelude::*;
use vstd::slice::slice_index_get;

verus! {

/// Width in bytes of an account address: a network-wide constant.
pub const DB3_ADDRESS_LENGTH: usize = 20;

/// A fixed-width account address. Produced by key derivation, never
/// hand-assembled from arbitrary bytes by callers; compared and ordered as
/// raw bytes.
#[derive(Clone, Copy)]
pub struct DB3Address {
    data: [u8; 20],
}

impl View for DB3Address {
    type V = Seq<u8>;

    closed spec fn view(&self) -> Seq<u8> {
        self.data@
    }
}

/// The view of every address is exactly `DB3_ADDRESS_LENGTH` bytes long.
pub broadcast proof fn lemma_address_len(a: DB3Address)
    ensures
        (#[trigger] a@).len() == DB3_ADDRESS_LENGTH,
{
}

impl DB3Address {
    /// Builds an address from a byte slice of exactly the address width.
    pub fn from_slice(bytes: &[u8]) -> (r: Self)
        requires
            bytes@.len() == DB3_ADDRESS_LENGTH,
        ensures
            r@ == bytes@,
    {
        let mut data: [u8; 20] = [0u8; 20];
        let mut i: usize = 0;
        while i < 20
            invariant
                i <= 20,
                bytes@.len() == 20,
                data@.len() == 20,
                forall|j: int| 0 <= j < i ==> data@[j] == bytes@[j],
            decreases 20 - i,
        {
            data[i] = *slice_index_get(bytes, i);
            i = i + 1;
        }
        let r = DB3Address { data };
        proof {
            assert(r@ =~= bytes@);
        }
        r
    }

    /// The raw bytes of the address.
    pub fn as_bytes(&self) -> (r: &[u8])
        ensures
            r@ == self@,
    {
        self.data.as_slice()
    }
}

impl PartialEq for DB3Address {
    fn eq(&self, other: &Self) -> (r: bool) {
        let mut i: usize = 0;
        let mut same: bool = true;
        while i < 20
            invariant
                i <= 20,
                same == (forall|j: int| 0 <= j < i ==> self.data@[j] == other.data@[j]),
            decreases 20 - i,
        {
            if self.data[i] != other.data[i] {
                same = false;
            }
            i = i + 1;
        }
        proof {
            if same {
                assert(self.data@ =~= other.data@);
            } else {
                assert(self.data@ != other.data@);
            }
        }
        same
    }
}

impl Eq for DB3Address {
}

impl vstd::std_specs::cmp::PartialEqSpecImpl for DB3Address {
    open spec fn obeys_eq_spec() -> bool {
        true
    }

    open spec fn eq_spec(&self, other: &Self) -> bool {
        self@ == other@
    }
}

} // verus!
