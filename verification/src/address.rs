//! Addresses that the program derives for the accounts it owns.

use crate::keys::{id, lemma_bytes_determine_key, program_id, Pubkey};
use vstd::prelude::*;

verus! {

/// The seeds from which the address of one of the program's accounts is derived.
#[derive(Clone, Copy, Debug, PartialEq, Eq)]
pub enum Seeds {
    /// The one global configuration.
    Config,
    /// The provider record of `authority`.
    Provider { authority: Pubkey },
    /// The `nonce`-th job, opened by `requester`.
    Job { requester: Pubkey, nonce: u64 },
    /// The token account that holds the bond of the provider record at `provider`.
    Bond { provider: Pubkey },
    /// The token account that holds the escrow of the job at `job`.
    Vault { job: Pubkey },
}

/// The ASCII bytes of "config".
pub open spec fn config_label() -> Seq<u8> {
    seq![0x63u8, 0x6f, 0x6e, 0x66, 0x69, 0x67]
}

/// The ASCII bytes of "provider".
pub open spec fn provider_label() -> Seq<u8> {
    seq![0x70u8, 0x72, 0x6f, 0x76, 0x69, 0x64, 0x65, 0x72]
}

/// The ASCII bytes of "job".
pub open spec fn job_label() -> Seq<u8> {
    seq![0x6au8, 0x6f, 0x62]
}

/// The ASCII bytes of "bond".
pub open spec fn bond_label() -> Seq<u8> {
    seq![0x62u8, 0x6f, 0x6e, 0x64]
}

/// The ASCII bytes of "vault".
pub open spec fn vault_label() -> Seq<u8> {
    seq![0x76u8, 0x61, 0x75, 0x6c, 0x74]
}

impl Seeds {
    /// The byte strings that are hashed, in order, without the bump.
    pub open spec fn parts(self) -> Seq<Seq<u8>> {
        match self {
            Seeds::Config => seq![config_label()],
            Seeds::Provider { authority } => seq![provider_label(), authority@],
            Seeds::Job { requester, nonce } => seq![
                job_label(),
                requester@,
                vstd::bytes::spec_u64_to_le_bytes(nonce),
            ],
            Seeds::Bond { provider } => seq![bond_label(), provider@],
            Seeds::Vault { job } => seq![vault_label(), job@],
        }
    }

    /// The byte strings that are hashed, in order, without the bump.
    pub fn to_parts(&self) -> (r: Vec<Vec<u8>>)
        ensures
            r.deep_view() == self.parts(),
    {
        let r: Vec<Vec<u8>> = match self {
            Seeds::Config => vec![vec![0x63u8, 0x6f, 0x6e, 0x66, 0x69, 0x67]],
            Seeds::Provider { authority } => vec![
                vec![0x70u8, 0x72, 0x6f, 0x76, 0x69, 0x64, 0x65, 0x72],
                key_bytes(authority),
            ],
            Seeds::Job { requester, nonce } => vec![
                vec![0x6au8, 0x6f, 0x62],
                key_bytes(requester),
                vstd::bytes::u64_to_le_bytes(*nonce),
            ],
            Seeds::Bond { provider } => vec![
                vec![0x62u8, 0x6f, 0x6e, 0x64],
                key_bytes(provider),
            ],
            Seeds::Vault { job } => vec![
                vec![0x76u8, 0x61, 0x75, 0x6c, 0x74],
                key_bytes(job),
            ],
        };
        assert(r.deep_view() =~~= self.parts());
        r
    }
}

fn key_bytes(key: &Pubkey) -> (r: Vec<u8>)
    ensures
        r@ == key@,
{
    let mut r: Vec<u8> = Vec::new();
    let mut i: usize = 0;
    while i < 32
        invariant
            i <= 32,
            r@ == key@.take(i as int),
        decreases 32 - i,
    {
        r.push(key.bytes[i]);
        i += 1;
    }
    r
}

/// The address that `Pubkey::create_program_address` derives from `seeds` for
/// the program at `program`, or `None` where it derives none.
pub uninterp spec fn program_address(seeds: Seq<Seq<u8>>, program: Seq<u8>) -> Option<Seq<u8>>;

/// The address and the bump that `Pubkey::try_find_program_address` finds for
/// `seeds` and the program at `program`, or `None` where it finds none.
pub uninterp spec fn found_address(seeds: Seq<Seq<u8>>, program: Seq<u8>) -> Option<
    (Seq<u8>, u8),
>;

/// Calls `anchor_lang::prelude::Pubkey::create_program_address`. The result is
/// a function of the seeds and of the program's address; which function (a
/// SHA-256 hash that must lie off the ed25519 curve) is left to its name,
/// `program_address`.
#[verifier::external_body]
fn create_program_address(seeds: &Vec<Vec<u8>>, program: &Pubkey) -> (r: Option<Pubkey>)
    ensures
        (match r {
            Some(key) => Some(key@),
            None => None,
        }) == program_address(seeds.deep_view(), program@),
{
    let parts: Vec<&[u8]> = seeds.iter().map(|part| part.as_slice()).collect();
    let program = anchor_lang::prelude::Pubkey::new_from_array(program.bytes);
    match anchor_lang::prelude::Pubkey::create_program_address(&parts, &program) {
        Ok(key) => Some(Pubkey { bytes: key.to_bytes() }),
        Err(_) => None,
    }
}

/// Calls `anchor_lang::prelude::Pubkey::try_find_program_address`. The result
/// is a function of the seeds and of the program's address, named
/// `found_address`. Whatever is found is what `create_program_address` derives
/// from the same seeds with the found bump appended as one more seed.
#[verifier::external_body]
fn find_program_address(seeds: &Vec<Vec<u8>>, program: &Pubkey) -> (r: Option<(Pubkey, u8)>)
    ensures
        (match r {
            Some((key, bump)) => Some((key@, bump)),
            None => None,
        }) == found_address(seeds.deep_view(), program@),
        r matches Some((key, bump)) ==> program_address(
            seeds.deep_view().push(seq![bump]),
            program@,
        ) == Some(key@),
{
    let parts: Vec<&[u8]> = seeds.iter().map(|part| part.as_slice()).collect();
    let program = anchor_lang::prelude::Pubkey::new_from_array(program.bytes);
    match anchor_lang::prelude::Pubkey::try_find_program_address(&parts, &program) {
        Some((key, bump)) => Some((Pubkey { bytes: key.to_bytes() }, bump)),
        None => None,
    }
}

/// Seeds together with their bump: what the program shows to act for the
/// account at the address that they derive.
#[derive(Clone, Copy, Debug, PartialEq, Eq)]
pub struct PdaSigner {
    pub seeds: Seeds,
    pub bump: u8,
}

/// `key` is the address that the seeds and the bump of `signer` derive.
pub open spec fn derived_at(key: Pubkey, signer: PdaSigner) -> bool {
    program_address(signer.parts(), program_id()) == Some(key@)
}

/// `key` is the address found for `seeds`, and `bump` the bump found with it.
pub open spec fn found_at(key: Pubkey, seeds: Seeds, bump: u8) -> bool {
    found_address(seeds.parts(), program_id()) == Some((key@, bump))
}

/// `key` is the address found for `seeds`, whatever the bump.
pub open spec fn found_key(key: Pubkey, seeds: Seeds) -> bool {
    exists|bump: u8| found_at(key, seeds, bump)
}

/// The address found for `seeds`, where there is one.
pub open spec fn address_of(seeds: Seeds) -> Pubkey {
    choose|key: Pubkey| found_key(key, seeds)
}

/// No other address than that one is found for the seeds.
pub proof fn lemma_found_key_is_address(key: Pubkey, seeds: Seeds)
    requires
        found_key(key, seeds),
    ensures
        key == address_of(seeds),
{
    assert(found_key(address_of(seeds), seeds));
    lemma_bytes_determine_key(key, address_of(seeds));
}

impl PdaSigner {
    /// The byte strings that are hashed, the bump last.
    pub open spec fn parts(self) -> Seq<Seq<u8>> {
        self.seeds.parts().push(seq![self.bump])
    }

    /// The byte strings that are hashed, the bump last.
    pub fn to_parts(&self) -> (r: Vec<Vec<u8>>)
        ensures
            r.deep_view() == self.parts(),
    {
        let mut r: Vec<Vec<u8>> = self.seeds.to_parts();
        r.push(vec![self.bump]);
        assert(r.deep_view() =~~= self.parts());
        r
    }

    /// The address that the seeds and the bump derive, if any.
    pub fn address(&self) -> (r: Option<Pubkey>)
        ensures
            r matches Some(key) ==> derived_at(key, *self),
            r is None <==> program_address(self.parts(), program_id()) is None,
    {
        create_program_address(&self.to_parts(), &id())
    }

    /// Whether the seeds and the bump derive `key`.
    pub fn is_at(&self, key: &Pubkey) -> (r: bool)
        ensures
            r == derived_at(*key, *self),
    {
        let derived = self.address();
        proof {
            if let Some(address) = derived {
                if address@ == key@ {
                    lemma_bytes_determine_key(address, *key);
                }
            }
        }
        matches_derived(derived, key)
    }
}

/// Whether `derived`, an address that seeds and a bump derive, if any, is `key`.
pub fn matches_derived(derived: Option<Pubkey>, key: &Pubkey) -> (r: bool)
    ensures
        r == (derived == Some(*key)),
{
    match derived {
        Some(address) => address == *key,
        None => false,
    }
}

/// Whether `found`, an address and a bump found for seeds, if any, is at `key`.
pub fn matches_found(found: Option<(Pubkey, u8)>, key: &Pubkey) -> (r: bool)
    ensures
        r == (found matches Some((address, _)) && address == *key),
{
    match found {
        Some((address, _)) => address == *key,
        None => false,
    }
}

/// Whether `found`, an address and a bump found for seeds, if any, is `key` with
/// `bump`.
pub fn matches_found_with(found: Option<(Pubkey, u8)>, key: &Pubkey, bump: u8) -> (r: bool)
    ensures
        r == (found == Some((*key, bump))),
{
    match found {
        Some((address, found_bump)) => address == *key && found_bump == bump,
        None => false,
    }
}

impl Seeds {
    /// The address found for the seeds and the bump found with it, if any.
    pub fn find(&self) -> (r: Option<(Pubkey, u8)>)
        ensures
            r matches Some((key, bump)) ==> found_at(key, *self, bump),
            r matches Some((key, bump)) ==> derived_at(key, (PdaSigner { seeds: *self, bump })),
            r is None <==> found_address(self.parts(), program_id()) is None,
    {
        find_program_address(&self.to_parts(), &id())
    }

    /// Whether `key` is the address found for the seeds.
    pub fn is_found(&self, key: &Pubkey) -> (r: bool)
        ensures
            r == found_key(*key, *self),
    {
        let found = self.find();
        proof {
            if let Some((address, bump)) = found {
                if address@ == key@ {
                    lemma_bytes_determine_key(address, *key);
                    assert(found_at(*key, *self, bump));
                }
            }
        }
        matches_found(found, key)
    }

    /// Whether `key` is the address found for the seeds, and `bump` the bump.
    pub fn is_found_with(&self, key: &Pubkey, bump: u8) -> (r: bool)
        ensures
            r == found_at(*key, *self, bump),
            r ==> derived_at(*key, (PdaSigner { seeds: *self, bump })),
    {
        let found = self.find();
        proof {
            if let Some((address, _)) = found {
                if address@ == key@ {
                    lemma_bytes_determine_key(address, *key);
                }
            }
        }
        matches_found_with(found, key, bump)
    }
}

} // verus!
