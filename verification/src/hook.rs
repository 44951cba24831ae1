//! The transfer hook: threshold computation, account-binding checks, and
//! the update of the latest-whale record.

use crate::addr::{
    address_eq, address_to_vec, derived_address, extra_account_metas_seed,
    extra_account_metas_seed_bytes, seed_views, try_derive_address, whale_seed, whale_seed_bytes,
    Address,
};
use crate::state::{HookError, MintInfo, TokenAccountInfo, WhaleAccount, WhaleTransferEvent};
use vstd::prelude::*;

verus! {

/// `10^e` as a mathematical integer.
pub open spec fn pow10(e: nat) -> int
    decreases e,
{
    if e == 0 {
        1
    } else {
        10 * pow10((e - 1) as nat)
    }
}

/// The whale threshold for a mint with `decimals` fractional digits:
/// one thousand whole units of the token.
pub open spec fn whale_threshold(decimals: nat) -> int {
    1000 * pow10(decimals)
}

proof fn lemma_pow10_positive(e: nat)
    ensures
        pow10(e) >= 1,
    decreases e,
{
    if e > 0 {
        lemma_pow10_positive((e - 1) as nat);
    }
}

proof fn lemma_pow10_increases(a: nat, b: nat)
    requires
        a <= b,
    ensures
        pow10(a) <= pow10(b),
    decreases b,
{
    if a < b {
        lemma_pow10_increases(a, (b - 1) as nat);
        lemma_pow10_positive((b - 1) as nat);
    }
}

proof fn lemma_pow10_values()
    ensures
        pow10(16nat) == 10_000_000_000_000_000,
        pow10(17nat) == 100_000_000_000_000_000,
        pow10(19nat) == 10_000_000_000_000_000_000,
{
    reveal_with_fuel(pow10, 21);
}

/// `10^e` for exponents small enough to fit in a `u64`.
fn pow10_u64(e: u8) -> (r: u64)
    requires
        e <= 19,
    ensures
        r == pow10(e as nat),
{
    let mut i: u8 = 0;
    let mut acc: u64 = 1;
    while i < e
        invariant
            i <= e,
            e <= 19,
            acc == pow10(i as nat),
        decreases e - i,
    {
        proof {
            lemma_pow10_increases((i + 1) as nat, 19nat);
            lemma_pow10_values();
        }
        acc = acc * 10;
        i = i + 1;
    }
    acc
}

/// Whether a transfer of `amount` base units of a mint with `decimals`
/// fractional digits reaches the whale threshold of one thousand whole
/// units. For decimal counts so large that the threshold exceeds
/// `u64::MAX`, no representable amount can reach it.
pub fn meets_threshold(amount: u64, decimals: u8) -> (r: bool)
    ensures
        r == (amount >= whale_threshold(decimals as nat)),
{
    if decimals >= 17 {
        proof {
            lemma_pow10_increases(17nat, decimals as nat);
            lemma_pow10_values();
        }
        false
    } else {
        let base = pow10_u64(decimals);
        proof {
            lemma_pow10_increases(decimals as nat, 16nat);
            lemma_pow10_values();
        }
        amount >= 1000 * base
    }
}

/// The account set the token runtime hands to the hook on a transfer:
/// the four standard transfer accounts (source, mint, destination, owner)
/// followed by the two derived side-accounts that the extra-account
/// declaration asks for.
#[derive(Clone, Copy, Debug)]
pub struct TransferHook {
    pub source_token: TokenAccountInfo,
    pub mint: MintInfo,
    pub destination_token: TokenAccountInfo,
    pub owner: Address,
    /// Address of the extra-account declaration; its contents are not read.
    pub extra_account_meta_list: Address,
    /// Address of the latest-whale record.
    pub latest_whale_address: Address,
    /// Contents of the latest-whale record.
    pub latest_whale_account: WhaleAccount,
}

/// Whether a declaration account's address matches the derivation from
/// the fixed prefix and the mint's identity.
pub open spec fn declaration_address_ok(mint_key: Seq<u8>, addr: Seq<u8>, program_id: Seq<u8>) -> bool {
    match derived_address(seq![extra_account_metas_seed(), mint_key], program_id) {
        Some(p) => p.0 == addr,
        None => false,
    }
}

/// Whether a latest-whale record's address matches its fixed derivation.
pub open spec fn whale_address_ok(addr: Seq<u8>, program_id: Seq<u8>) -> bool {
    match derived_address(seq![whale_seed()], program_id) {
        Some(p) => p.0 == addr,
        None => false,
    }
}

/// The account-binding checks that must hold before the hook's logic runs,
/// and the error each violation is rejected with, in checking order.
pub open spec fn accounts_check(a: TransferHook, program_id: Seq<u8>) -> Result<(), HookError> {
    if a.source_token.mint@ != a.mint.key@ {
        Err(HookError::ConstraintTokenMint)
    } else if a.source_token.owner@ != a.owner@ {
        Err(HookError::ConstraintTokenOwner)
    } else if a.destination_token.mint@ != a.mint.key@ {
        Err(HookError::ConstraintTokenMint)
    } else if !declaration_address_ok(a.mint.key@, a.extra_account_meta_list@, program_id) {
        Err(HookError::ConstraintSeeds)
    } else if !whale_address_ok(a.latest_whale_address@, program_id) {
        Err(HookError::ConstraintSeeds)
    } else {
        Ok(())
    }
}

/// Validates the account bindings of a transfer, rejecting exactly the
/// violations that `accounts_check` lists.
pub fn check_transfer_accounts(accounts: &TransferHook, program_id: &Address) -> (r: Result<
    (),
    HookError,
>)
    ensures
        r == accounts_check(*accounts, program_id@),
{
    if !address_eq(&accounts.source_token.mint, &accounts.mint.key) {
        return Err(HookError::ConstraintTokenMint);
    }
    if !address_eq(&accounts.source_token.owner, &accounts.owner) {
        return Err(HookError::ConstraintTokenOwner);
    }
    if !address_eq(&accounts.destination_token.mint, &accounts.mint.key) {
        return Err(HookError::ConstraintTokenMint);
    }
    let mut declaration_seeds: Vec<Vec<u8>> = Vec::new();
    declaration_seeds.push(extra_account_metas_seed_bytes());
    declaration_seeds.push(address_to_vec(&accounts.mint.key));
    proof {
        assert(seed_views(declaration_seeds@) =~= seq![
            extra_account_metas_seed(),
            accounts.mint.key@,
        ]);
    }
    match try_derive_address(&declaration_seeds, program_id) {
        Some(p) => {
            if !address_eq(&p.0, &accounts.extra_account_meta_list) {
                return Err(HookError::ConstraintSeeds);
            }
        },
        None => {
            return Err(HookError::ConstraintSeeds);
        },
    }
    let mut whale_seeds: Vec<Vec<u8>> = Vec::new();
    whale_seeds.push(whale_seed_bytes());
    proof {
        assert(seed_views(whale_seeds@) =~= seq![whale_seed()]);
    }
    match try_derive_address(&whale_seeds, program_id) {
        Some(p) => {
            if !address_eq(&p.0, &accounts.latest_whale_address) {
                return Err(HookError::ConstraintSeeds);
            }
        },
        None => {
            return Err(HookError::ConstraintSeeds);
        },
    }
    Ok(())
}

/// The account set after a transfer of `amount`: the latest-whale record
/// holds the transferring owner and the amount if the bindings hold and
/// the amount reaches the threshold; otherwise nothing changes.
pub open spec fn hook_state(a: TransferHook, program_id: Seq<u8>, amount: u64) -> TransferHook {
    if accounts_check(a, program_id) is Ok && amount >= whale_threshold(a.mint.decimals as nat) {
        TransferHook {
            latest_whale_account: WhaleAccount {
                whale_address: a.owner,
                transfer_amount: amount,
            },
            ..a
        }
    } else {
        a
    }
}

/// What the hook returns for a transfer of `amount`: the binding error if
/// one binding fails; otherwise success, carrying the whale event exactly
/// when the amount reaches the threshold.
pub open spec fn hook_result(a: TransferHook, program_id: Seq<u8>, amount: u64) -> Result<
    Option<WhaleTransferEvent>,
    HookError,
> {
    match accounts_check(a, program_id) {
        Err(e) => Err(e),
        Ok(_) => Ok(
            if amount >= whale_threshold(a.mint.decimals as nat) {
                Some(WhaleTransferEvent { whale_address: a.owner, transfer_amount: amount })
            } else {
                None
            },
        ),
    }
}

/// The hook operation: validates the account bindings, then records the
/// transfer and yields the notification event exactly when the amount
/// reaches one thousand whole units of the mint.
pub fn transfer_hook(accounts: &mut TransferHook, program_id: &Address, amount: u64) -> (r: Result<
    Option<WhaleTransferEvent>,
    HookError,
>)
    ensures
        *final(accounts) == hook_state(*old(accounts), program_id@, amount),
        r == hook_result(*old(accounts), program_id@, amount),
{
    match check_transfer_accounts(accounts, program_id) {
        Err(e) => Err(e),
        Ok(_) => {
            if meets_threshold(amount, accounts.mint.decimals) {
                accounts.latest_whale_account.whale_address = accounts.owner;
                accounts.latest_whale_account.transfer_amount = amount;
                Ok(
                    Some(
                        WhaleTransferEvent {
                            whale_address: accounts.owner,
                            transfer_amount: amount,
                        },
                    ),
                )
            } else {
                Ok(None)
            }
        },
    }
}

/// With valid account bindings, the record is overwritten with the owner
/// and amount and the event carries the same pair exactly when the amount
/// reaches the threshold; below it, nothing changes and no event comes.
pub proof fn lemma_threshold_decides_outcome(a: TransferHook, program_id: Seq<u8>, amount: u64)
    requires
        accounts_check(a, program_id) is Ok,
    ensures
        amount >= whale_threshold(a.mint.decimals as nat) ==> hook_state(
            a,
            program_id,
            amount,
        ).latest_whale_account == (WhaleAccount { whale_address: a.owner, transfer_amount: amount })
            && hook_result(a, program_id, amount) == Ok::<_, HookError>(
            Some(WhaleTransferEvent { whale_address: a.owner, transfer_amount: amount }),
        ),
        amount < whale_threshold(a.mint.decimals as nat) ==> hook_state(a, program_id, amount) == a
            && hook_result(a, program_id, amount) == Ok::<Option<WhaleTransferEvent>, HookError>(
            None,
        ),
{
}

/// The account set after a sequence of transfers, applied first to last.
pub open spec fn hook_state_seq(a: TransferHook, program_id: Seq<u8>, amounts: Seq<u64>)
    -> TransferHook
    decreases amounts.len(),
{
    if amounts.len() == 0 {
        a
    } else {
        hook_state_seq(hook_state(a, program_id, amounts[0]), program_id, amounts.skip(1))
    }
}

/// Repeated transfers below the threshold never alter the account set,
/// in particular not the latest-whale record.
pub proof fn lemma_below_threshold_idempotent(a: TransferHook, program_id: Seq<u8>, amounts: Seq<
    u64,
>)
    requires
        forall|i: int|
            0 <= i < amounts.len() ==> amounts[i] < whale_threshold(a.mint.decimals as nat),
    ensures
        hook_state_seq(a, program_id, amounts) == a,
    decreases amounts.len(),
{
    if amounts.len() > 0 {
        assert(hook_state(a, program_id, amounts[0]) == a);
        assert(forall|i: int|
            0 <= i < amounts.skip(1).len() ==> amounts.skip(1)[i] < whale_threshold(
                a.mint.decimals as nat,
            ));
        lemma_below_threshold_idempotent(a, program_id, amounts.skip(1));
    }
}

/// The hook never changes which accounts are bound to a transfer, so the
/// binding checks give the same verdict before and after it runs.
pub proof fn lemma_hook_preserves_check(a: TransferHook, program_id: Seq<u8>, amount: u64)
    ensures
        accounts_check(hook_state(a, program_id, amount), program_id) == accounts_check(
            a,
            program_id,
        ),
{
}

/// Two qualifying transfers in sequence leave the record holding exactly
/// the second transfer's owner and amount: the first survives only in its
/// emitted event.
pub proof fn lemma_second_whale_overwrites_first(
    a1: TransferHook,
    a2: TransferHook,
    program_id: Seq<u8>,
    amount1: u64,
    amount2: u64,
)
    requires
        accounts_check(a1, program_id) is Ok,
        accounts_check(a2, program_id) is Ok,
        amount1 >= whale_threshold(a1.mint.decimals as nat),
        amount2 >= whale_threshold(a2.mint.decimals as nat),
        a2.latest_whale_account == hook_state(a1, program_id, amount1).latest_whale_account,
    ensures
        hook_state(a1, program_id, amount1).latest_whale_account == (WhaleAccount {
            whale_address: a1.owner,
            transfer_amount: amount1,
        }),
        hook_state(a2, program_id, amount2).latest_whale_account == (WhaleAccount {
            whale_address: a2.owner,
            transfer_amount: amount2,
        }),
{
}

} // verus!
