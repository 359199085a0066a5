//! Account addresses.

use vstd::prelude::*;

verus! {

/// The address of an account: 32 bytes, either an ed25519 public key or an
/// address derived from a program.
#[derive(Clone, Copy, Debug)]
pub struct Pubkey {
    pub bytes: [u8; 32],
}

impl View for Pubkey {
    type V = Seq<u8>;

    open spec fn view(&self) -> Seq<u8> {
        self.bytes@
    }
}

impl PartialEq for Pubkey {
    fn eq(&self, other: &Pubkey) -> (r: bool) {
        let mut i: usize = 0;
        while i < 32
            invariant
                i <= 32,
                forall|j: int| 0 <= j < i ==> self.bytes[j] == other.bytes[j],
            decreases 32 - i,
        {
            if self.bytes[i] != other.bytes[i] {
                return false;
            }
            i += 1;
        }
        assert(self.bytes =~= other.bytes);
        true
    }
}

impl vstd::std_specs::cmp::PartialEqSpecImpl for Pubkey {
    open spec fn obeys_eq_spec() -> bool {
        true
    }

    open spec fn eq_spec(&self, other: &Pubkey) -> bool {
        *self == *other
    }
}

impl Eq for Pubkey {

}

impl Pubkey {
    /// The system address, all zeros: it stands for "not set".
    pub open spec fn unset() -> Pubkey {
        Pubkey { bytes: vstd::array::spec_array_fill_for_copy_type::<u8, 32>(0u8) }
    }
}

impl Default for Pubkey {
    fn default() -> (r: Pubkey)
        ensures
            r == Pubkey::unset(),
    {
        Pubkey { bytes: [0u8; 32] }
    }
}

/// Two addresses with the same bytes are the same address.
pub proof fn lemma_bytes_determine_key(a: Pubkey, b: Pubkey)
    requires
        a@ == b@,
    ensures
        a == b,
{
    assert forall|i: int| 0 <= i < 32 implies a.bytes[i] == b.bytes[i] by {
        assert(a@[i] == b@[i]);
    }
    assert(a.bytes =~= b.bytes);
}

/// The bytes of this program's address, 8e23bCyweHUVuiS3zhbhibuad5h6mXjwftTzPTjBomDq.
pub open spec fn program_id() -> Seq<u8> {
    seq![
        113u8, 125, 122, 199, 203, 15, 37, 164, 232, 9, 141, 184, 84, 246, 253, 132,
        66, 224, 9, 42, 38, 49, 142, 161, 143, 2, 51, 31, 23, 207, 73, 168,
    ]
}

/// The address under which this program is deployed.
pub fn id() -> (r: Pubkey)
    ensures
        r@ == program_id(),
{
    Pubkey {
        bytes: [
            113, 125, 122, 199, 203, 15, 37, 164, 232, 9, 141, 184, 84, 246, 253, 132,
            66, 224, 9, 42, 38, 49, 142, 161, 143, 2, 51, 31, 23, 207, 73, 168,
        ],
    }
}

} // verus!
