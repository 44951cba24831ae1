//! The setup operation: provisioning the extra-account declaration.
//!
//! The declaration is a fixed-layout side-account, written once per mint
//! at an address derived from a fixed prefix and the mint's identity. It
//! holds a one-entry descriptor list that tells the token runtime to
//! supply the latest-whale record (located by its fixed seed, not a
//! signer, writable) on every transfer of the governed token.

use crate::addr::{
    address_eq, address_to_vec, derived_address, extra_account_metas_seed,
    extra_account_metas_seed_bytes, seed_views, try_derive_address, whale_seed, whale_seed_bytes,
    Address,
};
use crate::hook::{declaration_address_ok, whale_address_ok};
use crate::shim::execute_discriminator;
use crate::state::{HookError, MintInfo};
use spl_tlv_account_resolution::account::ExtraAccountMeta;
use spl_tlv_account_resolution::state::ExtraAccountMetaList;
use spl_transfer_hook_interface::instruction::ExecuteInstruction;
use vstd::prelude::*;

verus! {

/// One descriptor of the declaration's list: how the runtime locates an
/// additional account (here always by a literal seed), and whether that
/// account must sign or be writable.
#[derive(Debug)]
pub struct AccountMetaEntry {
    /// The descriptor kind; a seed derivation is kind 1.
    pub discriminator: u8,
    /// The packed 32-byte seed configuration.
    pub address_config: Vec<u8>,
    pub is_signer: bool,
    pub is_writable: bool,
}

/// The packed 32-byte seed configuration of a single literal seed: a
/// literal-seed tag, the seed's length, the seed itself, zero-padded.
pub open spec fn literal_seed_config(seed: Seq<u8>) -> Seq<u8>
    recommends
        seed.len() <= 30,
{
    seq![1u8, seed.len() as u8] + seed + Seq::new((30 - seed.len()) as nat, |j: int| 0u8)
}

/// Builds the descriptor for an account located by a single literal seed.
/// A seed longer than the 30 bytes the configuration can hold is
/// rejected.
pub fn literal_seed_entry(seed: &Vec<u8>, is_signer: bool, is_writable: bool) -> (r: Result<
    AccountMetaEntry,
    HookError,
>)
    ensures
        seed@.len() <= 30 ==> (r matches Ok(e) && e.discriminator == 1 && e.address_config@
            == literal_seed_config(seed@) && e.is_signer == is_signer && e.is_writable
            == is_writable),
        seed@.len() > 30 ==> r == Err::<AccountMetaEntry, HookError>(HookError::SeedTooLong),
{
    if seed.len() > 30 {
        return Err(HookError::SeedTooLong);
    }
    let mut config: Vec<u8> = Vec::new();
    config.push(1);
    config.push(seed.len() as u8);
    let mut i: usize = 0;
    while i < seed.len()
        invariant
            i <= seed@.len(),
            seed@.len() <= 30,
            config@ == seq![1u8, seed@.len() as u8] + seed@.take(i as int),
        decreases seed@.len() - i,
    {
        config.push(seed[i]);
        proof {
            assert(config@ =~= seq![1u8, seed@.len() as u8] + seed@.take(i + 1));
        }
        i = i + 1;
    }
    proof {
        assert(seed@.take(seed@.len() as int) =~= seed@);
    }
    while config.len() < 32
        invariant
            seed@.len() <= 30,
            2 + seed@.len() <= config@.len() <= 32,
            config@ == seq![1u8, seed@.len() as u8] + seed@ + Seq::new(
                (config@.len() - 2 - seed@.len()) as nat,
                |j: int| 0u8,
            ),
        decreases 32 - config.len(),
    {
        config.push(0);
        proof {
            assert(config@ =~= seq![1u8, seed@.len() as u8] + seed@ + Seq::new(
                (config@.len() - 2 - seed@.len()) as nat,
                |j: int| 0u8,
            ));
        }
    }
    proof {
        assert(config@ =~= literal_seed_config(seed@));
    }
    Ok(AccountMetaEntry { discriminator: 1, address_config: config, is_signer, is_writable })
}

/// The four bytes of a value in little-endian order.
pub open spec fn le32(v: int) -> Seq<u8> {
    seq![
        (v % 256) as u8,
        ((v / 256) % 256) as u8,
        ((v / 65536) % 256) as u8,
        ((v / 16777216) % 256) as u8,
    ]
}

pub open spec fn bool_byte(b: bool) -> u8 {
    if b {
        1u8
    } else {
        0u8
    }
}

/// The 35 bytes a descriptor entry occupies in the declaration's storage.
pub open spec fn entry_bytes(e: AccountMetaEntry) -> Seq<u8> {
    seq![e.discriminator] + e.address_config@ + seq![bool_byte(e.is_signer), bool_byte(
        e.is_writable,
    )]
}

pub open spec fn entries_bytes(es: Seq<AccountMetaEntry>) -> Seq<u8>
    decreases es.len(),
{
    if es.len() == 0 {
        Seq::<u8>::empty()
    } else {
        entry_bytes(es[0]) + entries_bytes(es.skip(1))
    }
}

/// The declaration account's storage: the execute-instruction
/// discriminator, the entry list's byte length, the entry count, then the
/// entries, each 35 bytes.
pub open spec fn declaration_data(es: Seq<AccountMetaEntry>) -> Seq<u8> {
    execute_discriminator() + le32(4 + 35 * (es.len() as int)) + le32(es.len() as int)
        + entries_bytes(es)
}

/// Relies on spl_tlv_account_resolution's ExtraAccountMetaList::size_of:
/// the storage size for a list of `num_entries` descriptors is a
/// twelve-byte header, a four-byte length prefix, and thirty-five bytes
/// for each entry.
#[verifier::external_body]
fn declaration_account_size(num_entries: usize) -> (r: Result<usize, HookError>)
    requires
        num_entries <= 1000,
    ensures
        r is Ok,
        r matches Ok(s) ==> s == 16 + 35 * num_entries,
{
    ExtraAccountMetaList::size_of(num_entries).map_err(|_| HookError::EncodingFailed)
}

/// Relies on spl_tlv_account_resolution's ExtraAccountMetaList::init for
/// the execute instruction: on a zero-filled buffer of exactly the
/// required size it writes the discriminator, the length prefix, the
/// entry count and the packed entries, and succeeds.
#[verifier::external_body]
fn write_declaration_data(buf: &mut Vec<u8>, entries: &Vec<AccountMetaEntry>) -> (r: Result<
    (),
    HookError,
>)
    requires
        old(buf)@.len() == 16 + 35 * entries@.len(),
        forall|i: int| 0 <= i < old(buf)@.len() ==> old(buf)@[i] == 0,
        forall|i: int| 0 <= i < entries@.len() ==> entries@[i].address_config@.len() == 32,
        entries@.len() <= 1000,
    ensures
        r is Ok,
        final(buf)@ == declaration_data(entries@),
{
    let mut metas: Vec<ExtraAccountMeta> = Vec::new();
    for e in entries.iter() {
        let config: [u8; 32] = e.address_config.as_slice().try_into().unwrap();
        metas.push(ExtraAccountMeta {
            discriminator: e.discriminator,
            address_config: config,
            is_signer: e.is_signer.into(),
            is_writable: e.is_writable.into(),
        });
    }
    ExtraAccountMetaList::init::<ExecuteInstruction>(buf.as_mut_slice(), &metas).map_err(
        |_| HookError::EncodingFailed,
    )
}

/// A zero-filled byte vector of the given length.
fn zeroed_vec(n: usize) -> (r: Vec<u8>)
    ensures
        r@.len() == n,
        forall|i: int| 0 <= i < n ==> r@[i] == 0,
{
    let mut v: Vec<u8> = Vec::new();
    while v.len() < n
        invariant
            v@.len() <= n,
            forall|i: int| 0 <= i < v@.len() ==> v@[i] == 0,
        decreases n - v@.len(),
    {
        v.push(0);
    }
    v
}

/// The 35 bytes of the one descriptor this program declares: the
/// latest-whale record, located by its fixed literal seed, not a signer,
/// writable.
pub open spec fn whale_entry_bytes() -> Seq<u8> {
    seq![1u8] + literal_seed_config(whale_seed()) + seq![0u8, 1u8]
}

/// The full storage of this program's declaration account: a one-entry
/// list naming the latest-whale record.
pub open spec fn whale_declaration_data() -> Seq<u8> {
    execute_discriminator() + le32(39) + le32(1) + whale_entry_bytes()
}

/// Everything the setup operation determines: the declaration account's
/// derived address and bump seed, the storage size to allocate, and the
/// bytes to write into it.
#[derive(Debug)]
pub struct DeclarationSetup {
    pub address: Address,
    pub bump: u8,
    pub account_size: u64,
    pub data: Vec<u8>,
}

/// The account set the runtime hands to the setup operation: the payer
/// that funds the allocation, the declaration account to be created, the
/// governed mint, and the latest-whale record.
#[derive(Clone, Copy, Debug)]
pub struct InitializeExtraAccountMeta {
    pub payer: Address,
    pub extra_account_meta_list: Address,
    pub mint: MintInfo,
    pub latest_whale_address: Address,
}

/// Whether both supplied side-account addresses match their seed
/// derivations, as the setup operation demands before it writes anything.
pub open spec fn setup_addresses_ok(a: InitializeExtraAccountMeta, program_id: Seq<u8>) -> bool {
    declaration_address_ok(a.mint.key@, a.extra_account_meta_list@, program_id)
        && whale_address_ok(a.latest_whale_address@, program_id)
}

/// The setup operation's computation: checks that the supplied
/// declaration and record addresses match their derivations from the
/// fixed seeds and the mint's identity, sizes the declaration's storage
/// for exactly one descriptor, and encodes the descriptor list. The
/// allocation itself is the host's primitive; it receives these values
/// unchanged.
pub fn initialize_extra_account(accounts: &InitializeExtraAccountMeta, program_id: &Address) -> (r:
    Result<DeclarationSetup, HookError>)
    ensures
        setup_addresses_ok(*accounts, program_id@) ==> (r matches Ok(d) && Some((d.address@, d.bump))
            == derived_address(
            seq![extra_account_metas_seed(), accounts.mint.key@],
            program_id@,
        ) && d.account_size == 51 && d.data@ == whale_declaration_data()),
        !setup_addresses_ok(*accounts, program_id@) ==> r == Err::<DeclarationSetup, HookError>(
            HookError::ConstraintSeeds,
        ),
{
    let mut seeds: Vec<Vec<u8>> = Vec::new();
    seeds.push(extra_account_metas_seed_bytes());
    seeds.push(address_to_vec(&accounts.mint.key));
    proof {
        assert(seed_views(seeds@) =~= seq![extra_account_metas_seed(), accounts.mint.key@]);
    }
    let derived = try_derive_address(&seeds, program_id);
    let (address, bump) = match derived {
        Some(p) => p,
        None => {
            return Err(HookError::ConstraintSeeds);
        },
    };
    if !address_eq(&address, &accounts.extra_account_meta_list) {
        return Err(HookError::ConstraintSeeds);
    }
    let mut whale_seeds: Vec<Vec<u8>> = Vec::new();
    whale_seeds.push(whale_seed_bytes());
    proof {
        assert(seed_views(whale_seeds@) =~= seq![whale_seed()]);
    }
    match try_derive_address(&whale_seeds, program_id) {
        Some(p) => {
            if !address_eq(&p.0, &accounts.latest_whale_address) {
                return Err(HookError::ConstraintSeeds);
            }
        },
        None => {
            return Err(HookError::ConstraintSeeds);
        },
    }
    let whale = whale_seed_bytes();
    let entry = match literal_seed_entry(&whale, false, true) {
        Ok(e) => e,
        Err(e) => {
            return Err(e);
        },
    };
    let mut entries: Vec<AccountMetaEntry> = Vec::new();
    entries.push(entry);
    let size = match declaration_account_size(entries.len()) {
        Ok(s) => s,
        Err(e) => {
            return Err(e);
        },
    };
    let mut data = zeroed_vec(size);
    match write_declaration_data(&mut data, &entries) {
        Ok(_) => {},
        Err(e) => {
            return Err(e);
        },
    }
    proof {
        assert(entries_bytes(entries@.skip(1)) =~= Seq::<u8>::empty());
        assert(entry_bytes(entries@[0]) =~= whale_entry_bytes());
        assert(declaration_data(entries@) =~= whale_declaration_data());
    }
    Ok(DeclarationSetup { address, bump, account_size: size as u64, data })
}

} // verus!
