use solana_program::pubkey::Pubkey;
use spl_tlv_account_resolution::account::ExtraAccountMeta;
use spl_tlv_account_resolution::seeds::Seed;
use spl_tlv_account_resolution::state::ExtraAccountMetaList;
use spl_transfer_hook_interface::instruction::{ExecuteInstruction, TransferHookInstruction};
use whale_hook::addr::{address_eq, Address};
use whale_hook::codec::{le_bytes_to_u64, u64_to_le_bytes};
use whale_hook::hook::{check_transfer_accounts, meets_threshold, transfer_hook, TransferHook};
use whale_hook::record::{pack_whale_record, unpack_whale_record};
use whale_hook::setup::{initialize_extra_account, literal_seed_entry, InitializeExtraAccountMeta};
use whale_hook::shim::fallback;
use whale_hook::state::{HookError, MintInfo, TokenAccountInfo, WhaleAccount};

fn addr(n: u8) -> Address {
    Address { bytes: [n; 32] }
}

/// An account set whose bindings all hold: the two side-account addresses
/// are derived exactly as the hook recomputes them.
fn valid_accounts(program_id: &Address, mint_key: Address, decimals: u8, owner: Address) -> TransferHook {
    let pid = Pubkey::new_from_array(program_id.bytes);
    let (decl, _) =
        Pubkey::find_program_address(&[b"extra-account-metas", mint_key.bytes.as_ref()], &pid);
    let (whale, _) = Pubkey::find_program_address(&[b"whale_account"], &pid);
    TransferHook {
        source_token: TokenAccountInfo { mint: mint_key, owner },
        mint: MintInfo { key: mint_key, decimals },
        destination_token: TokenAccountInfo { mint: mint_key, owner: addr(9) },
        owner,
        extra_account_meta_list: Address { bytes: decl.to_bytes() },
        latest_whale_address: Address { bytes: whale.to_bytes() },
        latest_whale_account: WhaleAccount { whale_address: addr(0), transfer_amount: 0 },
    }
}

/// A setup account set whose two side-account addresses match their
/// derivations.
fn valid_setup_accounts(
    program_id: &Address,
    mint_key: Address,
    decimals: u8,
) -> InitializeExtraAccountMeta {
    let pid = Pubkey::new_from_array(program_id.bytes);
    let (decl, _) =
        Pubkey::find_program_address(&[b"extra-account-metas", mint_key.bytes.as_ref()], &pid);
    let (whale, _) = Pubkey::find_program_address(&[b"whale_account"], &pid);
    InitializeExtraAccountMeta {
        payer: addr(1),
        extra_account_meta_list: Address { bytes: decl.to_bytes() },
        mint: MintInfo { key: mint_key, decimals },
        latest_whale_address: Address { bytes: whale.to_bytes() },
    }
}

#[test]
fn threshold_six_decimals_exact_boundary() {
    assert!(meets_threshold(1_000_000_000, 6));
    assert!(!meets_threshold(999_999_999, 6));
}

#[test]
fn threshold_zero_decimals() {
    assert!(meets_threshold(1000, 0));
    assert!(meets_threshold(1001, 0));
    assert!(!meets_threshold(999, 0));
}

#[test]
fn threshold_sixteen_decimals_boundary() {
    assert!(meets_threshold(10_000_000_000_000_000_000, 16));
    assert!(!meets_threshold(9_999_999_999_999_999_999, 16));
    assert!(meets_threshold(u64::MAX, 16));
}

#[test]
fn threshold_unreachable_for_large_decimal_counts() {
    assert!(!meets_threshold(u64::MAX, 17));
    assert!(!meets_threshold(u64::MAX, 19));
    assert!(!meets_threshold(u64::MAX, 255));
}

#[test]
fn whale_transfer_updates_record_and_emits() {
    let pid = addr(7);
    let owner = addr(3);
    let mut accounts = valid_accounts(&pid, addr(2), 6, owner);
    let r = transfer_hook(&mut accounts, &pid, 1_000_000_000);
    let event = r.unwrap().expect("a qualifying transfer must emit the event");
    assert_eq!(event.whale_address.bytes, owner.bytes);
    assert_eq!(event.transfer_amount, 1_000_000_000);
    assert_eq!(accounts.latest_whale_account.whale_address.bytes, owner.bytes);
    assert_eq!(accounts.latest_whale_account.transfer_amount, 1_000_000_000);
}

#[test]
fn below_threshold_changes_nothing() {
    let pid = addr(7);
    let mut accounts = valid_accounts(&pid, addr(2), 6, addr(3));
    let r = transfer_hook(&mut accounts, &pid, 999_999_999);
    assert!(r.unwrap().is_none());
    assert_eq!(accounts.latest_whale_account.whale_address.bytes, [0; 32]);
    assert_eq!(accounts.latest_whale_account.transfer_amount, 0);
}

#[test]
fn repeated_below_threshold_is_idempotent() {
    let pid = addr(7);
    let mut accounts = valid_accounts(&pid, addr(2), 2, addr(3));
    for amount in [1, 99_999, 50_000] {
        let r = transfer_hook(&mut accounts, &pid, amount);
        assert!(r.unwrap().is_none());
        assert_eq!(accounts.latest_whale_account.whale_address.bytes, [0; 32]);
        assert_eq!(accounts.latest_whale_account.transfer_amount, 0);
    }
}

#[test]
fn second_whale_overwrites_first() {
    let pid = addr(7);
    let mint_key = addr(2);
    let first_owner = addr(3);
    let second_owner = addr(4);
    let mut accounts = valid_accounts(&pid, mint_key, 0, first_owner);
    transfer_hook(&mut accounts, &pid, 5000).unwrap();
    assert_eq!(accounts.latest_whale_account.whale_address.bytes, first_owner.bytes);

    let mut second = valid_accounts(&pid, mint_key, 0, second_owner);
    second.latest_whale_account = accounts.latest_whale_account;
    transfer_hook(&mut second, &pid, 2000).unwrap();
    assert_eq!(second.latest_whale_account.whale_address.bytes, second_owner.bytes);
    assert_eq!(second.latest_whale_account.transfer_amount, 2000);
}

#[test]
fn destination_mint_mismatch_is_rejected_before_any_write() {
    let pid = addr(7);
    let mut accounts = valid_accounts(&pid, addr(2), 0, addr(3));
    accounts.destination_token.mint = addr(8);
    let r = transfer_hook(&mut accounts, &pid, u64::MAX);
    assert_eq!(r.unwrap_err(), HookError::ConstraintTokenMint);
    assert_eq!(accounts.latest_whale_account.whale_address.bytes, [0; 32]);
    assert_eq!(accounts.latest_whale_account.transfer_amount, 0);
}

#[test]
fn source_mint_mismatch_is_rejected() {
    let pid = addr(7);
    let mut accounts = valid_accounts(&pid, addr(2), 0, addr(3));
    accounts.source_token.mint = addr(8);
    assert_eq!(check_transfer_accounts(&accounts, &pid).unwrap_err(), HookError::ConstraintTokenMint);
}

#[test]
fn source_owner_mismatch_is_rejected() {
    let pid = addr(7);
    let mut accounts = valid_accounts(&pid, addr(2), 0, addr(3));
    accounts.source_token.owner = addr(8);
    assert_eq!(check_transfer_accounts(&accounts, &pid).unwrap_err(), HookError::ConstraintTokenOwner);
}

#[test]
fn wrong_declaration_address_is_rejected() {
    let pid = addr(7);
    let mut accounts = valid_accounts(&pid, addr(2), 0, addr(3));
    accounts.extra_account_meta_list = addr(8);
    assert_eq!(check_transfer_accounts(&accounts, &pid).unwrap_err(), HookError::ConstraintSeeds);
}

#[test]
fn wrong_whale_record_address_is_rejected() {
    let pid = addr(7);
    let mut accounts = valid_accounts(&pid, addr(2), 0, addr(3));
    accounts.latest_whale_address = addr(8);
    assert_eq!(check_transfer_accounts(&accounts, &pid).unwrap_err(), HookError::ConstraintSeeds);
}

#[test]
fn valid_bindings_are_accepted() {
    let pid = addr(7);
    let accounts = valid_accounts(&pid, addr(2), 0, addr(3));
    assert!(check_transfer_accounts(&accounts, &pid).is_ok());
}

#[test]
fn execute_payload_routes_to_hook() {
    let data = TransferHookInstruction::Execute { amount: 1000 }.pack();
    let mut expected = vec![105u8, 37, 101, 197, 75, 251, 102, 26];
    expected.extend_from_slice(&[0xE8, 0x03, 0, 0, 0, 0, 0, 0]);
    assert_eq!(data, expected);

    let pid = addr(7);
    let owner = addr(3);
    let mut accounts = valid_accounts(&pid, addr(2), 0, owner);
    let event = fallback(&pid, &mut accounts, &data).unwrap().expect("amount 1000 at 0 decimals is a whale");
    assert_eq!(event.transfer_amount, 1000);
    assert_eq!(event.whale_address.bytes, owner.bytes);
    assert_eq!(accounts.latest_whale_account.transfer_amount, 1000);
}

#[test]
fn other_tag_is_rejected() {
    let mut data = TransferHookInstruction::Execute { amount: 1000 }.pack();
    data[0] = data[0].wrapping_add(1);
    let pid = addr(7);
    let mut accounts = valid_accounts(&pid, addr(2), 0, addr(3));
    assert_eq!(fallback(&pid, &mut accounts, &data).unwrap_err(), HookError::InvalidInstructionData);
    assert_eq!(accounts.latest_whale_account.transfer_amount, 0);
}

#[test]
fn initialize_tag_is_rejected() {
    let data =
        TransferHookInstruction::InitializeExtraAccountMetaList { extra_account_metas: vec![] }
            .pack();
    let pid = addr(7);
    let mut accounts = valid_accounts(&pid, addr(2), 0, addr(3));
    assert_eq!(fallback(&pid, &mut accounts, &data).unwrap_err(), HookError::InvalidInstructionData);
}

#[test]
fn truncated_execute_payload_is_rejected() {
    let data = vec![105u8, 37, 101, 197, 75, 251, 102, 26];
    let pid = addr(7);
    let mut accounts = valid_accounts(&pid, addr(2), 0, addr(3));
    assert_eq!(fallback(&pid, &mut accounts, &data).unwrap_err(), HookError::InvalidInstructionData);
}

#[test]
fn setup_matches_host_derivation_and_encoding() {
    let pid_addr = addr(7);
    let mint_key = addr(2);
    let accounts = valid_setup_accounts(&pid_addr, mint_key, 6);
    let setup = initialize_extra_account(&accounts, &pid_addr).unwrap();

    let pid = Pubkey::new_from_array(pid_addr.bytes);
    let (expected_addr, expected_bump) =
        Pubkey::find_program_address(&[b"extra-account-metas", mint_key.bytes.as_ref()], &pid);
    assert_eq!(setup.address.bytes, expected_addr.to_bytes());
    assert_eq!(setup.bump, expected_bump);

    let expected_size = ExtraAccountMetaList::size_of(1).unwrap();
    assert_eq!(setup.account_size, expected_size as u64);
    assert_eq!(setup.account_size, 51);

    let meta = ExtraAccountMeta::new_with_seeds(
        &[Seed::Literal { bytes: b"whale_account".to_vec() }],
        false,
        true,
    )
    .unwrap();
    let mut expected_data = vec![0u8; expected_size];
    ExtraAccountMetaList::init::<ExecuteInstruction>(&mut expected_data, &[meta]).unwrap();
    assert_eq!(setup.data, expected_data);
}

#[test]
fn setup_derivation_differs_between_mints() {
    let pid = addr(7);
    let a = initialize_extra_account(&valid_setup_accounts(&pid, addr(2), 0), &pid).unwrap();
    let b = initialize_extra_account(&valid_setup_accounts(&pid, addr(3), 0), &pid).unwrap();
    assert_ne!(a.address.bytes, b.address.bytes);
    assert_eq!(a.data, b.data);
}

#[test]
fn setup_rejects_mismatched_declaration_address() {
    let pid = addr(7);
    let mut accounts = valid_setup_accounts(&pid, addr(2), 0);
    accounts.extra_account_meta_list = addr(8);
    assert_eq!(
        initialize_extra_account(&accounts, &pid).unwrap_err(),
        HookError::ConstraintSeeds
    );
}

#[test]
fn setup_rejects_mismatched_record_address() {
    let pid = addr(7);
    let mut accounts = valid_setup_accounts(&pid, addr(2), 0);
    accounts.latest_whale_address = addr(8);
    assert_eq!(
        initialize_extra_account(&accounts, &pid).unwrap_err(),
        HookError::ConstraintSeeds
    );
}

#[test]
fn literal_seed_entry_packs_the_seed() {
    let seed = b"whale_account".to_vec();
    let entry = literal_seed_entry(&seed, false, true).unwrap();
    assert_eq!(entry.discriminator, 1);
    assert!(!entry.is_signer);
    assert!(entry.is_writable);
    let mut expected = vec![1u8, 13];
    expected.extend_from_slice(b"whale_account");
    expected.resize(32, 0);
    assert_eq!(entry.address_config, expected);

    let meta = ExtraAccountMeta::new_with_seeds(
        &[Seed::Literal { bytes: seed.clone() }],
        false,
        true,
    )
    .unwrap();
    assert_eq!(meta.discriminator, entry.discriminator);
    assert_eq!(meta.address_config.as_ref(), entry.address_config.as_slice());
}

#[test]
fn literal_seed_entry_rejects_long_seeds() {
    let seed = vec![1u8; 31];
    assert_eq!(literal_seed_entry(&seed, false, true).unwrap_err(), HookError::SeedTooLong);
}

#[test]
fn record_pack_layout() {
    let w = WhaleAccount { whale_address: addr(5), transfer_amount: 1_000_000_000 };
    let bytes = pack_whale_record(&w);
    assert_eq!(bytes.len(), 48);
    assert_eq!(&bytes[0..8], &[178u8, 158, 102, 119, 72, 153, 76, 113]);
    assert_eq!(&bytes[8..40], &[5u8; 32]);
    assert_eq!(&bytes[40..48], &1_000_000_000u64.to_le_bytes());
}

#[test]
fn record_round_trip() {
    let w = WhaleAccount { whale_address: addr(11), transfer_amount: u64::MAX };
    let bytes = pack_whale_record(&w);
    let back = unpack_whale_record(&bytes).unwrap();
    assert_eq!(back.whale_address.bytes, w.whale_address.bytes);
    assert_eq!(back.transfer_amount, w.transfer_amount);
}

#[test]
fn record_rejects_wrong_prefix_or_size() {
    let w = WhaleAccount { whale_address: addr(5), transfer_amount: 7 };
    let mut bytes = pack_whale_record(&w);
    bytes[0] = bytes[0].wrapping_add(1);
    assert_eq!(unpack_whale_record(&bytes).unwrap_err(), HookError::MalformedRecord);
    let short = vec![0u8; 47];
    assert_eq!(unpack_whale_record(&short).unwrap_err(), HookError::MalformedRecord);
}

#[test]
fn codec_round_trip() {
    let v: u64 = 0x0807_0605_0403_0201;
    let bytes = u64_to_le_bytes(v);
    assert_eq!(bytes, vec![1u8, 2, 3, 4, 5, 6, 7, 8]);
    assert_eq!(le_bytes_to_u64(&bytes), v);
    let max = u64_to_le_bytes(u64::MAX);
    assert_eq!(le_bytes_to_u64(&max), u64::MAX);
}

#[test]
fn address_eq_compares_bytes() {
    assert!(address_eq(&addr(4), &addr(4)));
    let mut other = addr(4);
    other.bytes[31] = 5;
    assert!(!address_eq(&addr(4), &other));
}
