use vstd::prelude::*;

verus! {

/// An identity: the 56 characters of the key of an account or of a contract.
///
/// The vault only compares identities. Whether a key is well formed, and
/// whether a caller controls it, is for whoever authenticates the caller.
#[derive(Clone, Copy, Debug, Eq)]
pub struct Address {
    strkey: [u8; 56],
}

impl View for Address {
    type V = Seq<u8>;

    closed spec fn view(&self) -> Seq<u8> {
        self.strkey@
    }
}

impl Address {
    /// The identity with the key `strkey`.
    pub fn from_strkey(strkey: [u8; 56]) -> (address: Address)
        ensures
            address@ == strkey@,
    {
        Address { strkey }
    }

    /// The key of the identity.
    pub fn strkey(&self) -> (strkey: [u8; 56])
        ensures
            strkey@ == self@,
    {
        self.strkey
    }

    /// Two identities are the same exactly when their keys are.
    pub proof fn lemma_same_key_same_address(a: Address, b: Address)
        ensures
            (a@ == b@) <==> (a == b),
    {
        broadcast use vstd::array::group_array_axioms;

        if a@ == b@ {
            assert(a.strkey =~= b.strkey);
        }
    }
}

impl PartialEq for Address {
    fn eq(&self, other: &Address) -> (same: bool) {
        let mut i: usize = 0;
        while i < 56
            invariant
                i <= 56,
                forall|j: int| 0 <= j < i ==> self.strkey[j] == other.strkey[j],
            decreases 56 - i,
        {
            if self.strkey[i] != other.strkey[i] {
                return false;
            }
            i += 1;
        }
        proof {
            broadcast use vstd::array::group_array_axioms;

            assert(self.strkey =~= other.strkey);
        }
        true
    }
}

impl vstd::std_specs::cmp::PartialEqSpecImpl for Address {
    open spec fn obeys_eq_spec() -> bool {
        true
    }

    open spec fn eq_spec(&self, other: &Address) -> bool {
        *self == *other
    }
}

} // verus!
