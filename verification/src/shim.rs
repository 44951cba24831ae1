//! The fallback entry shim.
//!
//! The token runtime calls back into the program through a generic
//! convention: a raw payload whose first eight bytes are an instruction
//! discriminator. The shim recognises exactly the "execute transfer"
//! discriminator, decodes the little-endian amount that follows it, and
//! routes the call to the hook; every other payload is rejected.

use crate::addr::Address;
use crate::codec::{le_value, lemma_le_value_fits_u64};
use crate::hook::{hook_result, hook_state, transfer_hook, TransferHook};
use crate::state::{HookError, WhaleTransferEvent};
use spl_transfer_hook_interface::instruction::TransferHookInstruction;
use vstd::prelude::*;

verus! {

/// The eight-byte discriminator of the "execute transfer" instruction of
/// the shared transfer-hook convention.
pub open spec fn execute_discriminator() -> Seq<u8> {
    seq![105u8, 37, 101, 197, 75, 251, 102, 26]
}

/// Whether a raw payload is a well-formed "execute transfer" instruction:
/// the execute discriminator followed by at least eight amount bytes.
pub open spec fn is_execute_payload(d: Seq<u8>) -> bool {
    d.len() >= 16 && d.subrange(0, 8) == execute_discriminator()
}

/// Relies on spl_transfer_hook_interface's TransferHookInstruction::unpack:
/// it yields the execute instruction exactly for payloads that carry the
/// execute discriminator and eight amount bytes, with the amount read in
/// little-endian order, and some other instruction or an error otherwise.
#[verifier::external_body]
fn unpack_execute_amount(data: &[u8]) -> (r: Option<u64>)
    ensures
        (r is Some) == is_execute_payload(data@),
        r matches Some(amount) ==> amount == le_value(data@.subrange(8, 16)),
{
    match TransferHookInstruction::unpack(data) {
        Ok(TransferHookInstruction::Execute { amount }) => Some(amount),
        Ok(TransferHookInstruction::InitializeExtraAccountMetaList { .. }) => None,
        Ok(TransferHookInstruction::UpdateExtraAccountMetaList { .. }) => None,
        Err(_) => None,
    }
}

/// The fallback entry: decodes the raw payload under the shared
/// convention and routes the one supported instruction to the hook; any
/// other payload is rejected with an invalid-instruction-data error and
/// changes nothing.
pub fn fallback(program_id: &Address, accounts: &mut TransferHook, data: &[u8]) -> (r: Result<
    Option<WhaleTransferEvent>,
    HookError,
>)
    ensures
        is_execute_payload(data@) ==> *final(accounts) == hook_state(
            *old(accounts),
            program_id@,
            le_value(data@.subrange(8, 16)) as u64,
        ) && r == hook_result(*old(accounts), program_id@, le_value(data@.subrange(8, 16)) as u64),
        !is_execute_payload(data@) ==> *final(accounts) == *old(accounts) && r == Err::<
            Option<WhaleTransferEvent>,
            HookError,
        >(HookError::InvalidInstructionData),
{
    match unpack_execute_amount(data) {
        Some(amount) => {
            proof {
                lemma_le_value_fits_u64(data@.subrange(8, 16));
            }
            transfer_hook(accounts, program_id, amount)
        },
        None => Err(HookError::InvalidInstructionData),
    }
}

} // verus!
