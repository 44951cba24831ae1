//! Account identities and deterministic address derivation.
//!
//! Every account the program touches is identified by a 32-byte address.
//! Two of them are not chosen freely but derived from fixed seed strings:
//! the extra-account declaration (seeds: a fixed prefix plus the governed
//! mint's identity) and the latest-whale record (a single fixed seed).

use solana_program::pubkey::Pubkey;
use vstd::prelude::*;

verus! {

/// A 32-byte account identity.
#[derive(Clone, Copy, Debug)]
pub struct Address {
    pub bytes: [u8; 32],
}

impl View for Address {
    type V = Seq<u8>;

    open spec fn view(&self) -> Seq<u8> {
        self.bytes@
    }
}

/// Byte-for-byte equality of two addresses.
pub fn address_eq(a: &Address, b: &Address) -> (r: bool)
    ensures
        r == (a@ == b@),
{
    let mut i: usize = 0;
    while i < 32
        invariant
            i <= 32,
            forall|j: int| 0 <= j < i ==> a.bytes@[j] == b.bytes@[j],
        decreases 32 - i,
    {
        if a.bytes[i] != b.bytes[i] {
            return false;
        }
        i = i + 1;
    }
    proof {
        assert(a@ =~= b@);
    }
    true
}

/// The seed of the latest-whale record: the ASCII bytes of "whale_account".
pub open spec fn whale_seed() -> Seq<u8> {
    seq![119u8, 104, 97, 108, 101, 95, 97, 99, 99, 111, 117, 110, 116]
}

/// The seed prefix of the extra-account declaration: the ASCII bytes of
/// "extra-account-metas".
pub open spec fn extra_account_metas_seed() -> Seq<u8> {
    seq![101u8, 120, 116, 114, 97, 45, 97, 99, 99, 111, 117, 110, 116, 45, 109, 101, 116, 97, 115]
}

/// The seed of the latest-whale record, as a byte vector.
pub fn whale_seed_bytes() -> (r: Vec<u8>)
    ensures
        r@ == whale_seed(),
{
    let r: Vec<u8> = vec![119u8, 104, 97, 108, 101, 95, 97, 99, 99, 111, 117, 110, 116];
    proof {
        assert(r@ =~= whale_seed());
    }
    r
}

/// The seed prefix of the extra-account declaration, as a byte vector.
pub fn extra_account_metas_seed_bytes() -> (r: Vec<u8>)
    ensures
        r@ == extra_account_metas_seed(),
{
    let r: Vec<u8> = vec![
        101u8, 120, 116, 114, 97, 45, 97, 99, 99, 111, 117, 110, 116, 45, 109, 101, 116, 97, 115,
    ];
    proof {
        assert(r@ =~= extra_account_metas_seed());
    }
    r
}

/// The contents of an address as a byte vector.
pub fn address_to_vec(a: &Address) -> (r: Vec<u8>)
    ensures
        r@ == a@,
{
    let mut r: Vec<u8> = Vec::new();
    let mut i: usize = 0;
    while i < 32
        invariant
            i <= 32,
            r@ == a.bytes@.take(i as int),
        decreases 32 - i,
    {
        r.push(a.bytes[i]);
        proof {
            assert(r@ =~= a.bytes@.take(i + 1));
        }
        i = i + 1;
    }
    proof {
        assert(a.bytes@.take(32) =~= a@);
    }
    r
}

/// The views of a list of seed byte vectors.
pub open spec fn seed_views(seeds: Seq<Vec<u8>>) -> Seq<Seq<u8>> {
    seeds.map_values(|s: Vec<u8>| s@)
}

/// The address and bump that the host's deterministic derivation yields
/// for the given seeds and program identity, if any; the derivation is a
/// pure function of the two.
pub uninterp spec fn derived_address(seeds: Seq<Seq<u8>>, program_id: Seq<u8>) -> Option<(Seq<u8>, u8)>;

/// Relies on solana_program::pubkey::Pubkey::try_find_program_address:
/// the returned address and bump seed depend on the seeds and the program
/// identity alone.
#[verifier::external_body]
pub(crate) fn try_derive_address(seeds: &Vec<Vec<u8>>, program_id: &Address) -> (r: Option<(
    Address,
    u8,
)>)
    ensures
        (r is Some) == (derived_address(seed_views(seeds@), program_id@) is Some),
        r matches Some(p) ==> derived_address(seed_views(seeds@), program_id@) == Some(
            (p.0@, p.1),
        ),
{
    let seed_refs: Vec<&[u8]> = seeds.iter().map(|s| s.as_slice()).collect();
    let pid = Pubkey::new_from_array(program_id.bytes);
    Pubkey::try_find_program_address(&seed_refs, &pid).map(|(key, bump)| (
        Address { bytes: key.to_bytes() },
        bump,
    ))
}

} // verus!
