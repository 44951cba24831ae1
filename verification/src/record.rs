//! The latest-whale record's storage layout.
//!
//! The record persists as a fixed-width account: the host's eight-byte
//! account-type prefix, the owner identity (32 bytes), and the transfer
//! amount (8 bytes, unsigned little-endian) — 48 bytes in all.

use crate::addr::Address;
use crate::codec::{le_bytes_to_u64, le_value, u64_to_le_bytes};
use crate::state::{HookError, WhaleAccount};
use vstd::prelude::*;

verus! {

/// The eight-byte account-type prefix of the latest-whale record's
/// storage: the host convention's tag for this record kind.
pub open spec fn whale_record_discriminator() -> Seq<u8> {
    seq![178u8, 158, 102, 119, 72, 153, 76, 113]
}

/// Whether a byte sequence is a well-formed latest-whale record: exactly
/// the fixed width, opening with the record's prefix.
pub open spec fn is_whale_record(b: Seq<u8>) -> bool {
    b.len() == 48 && b.subrange(0, 8) == whale_record_discriminator()
}

/// The record's prefix, as a byte vector.
fn whale_record_discriminator_bytes() -> (r: Vec<u8>)
    ensures
        r@ == whale_record_discriminator(),
{
    let r: Vec<u8> = vec![178u8, 158, 102, 119, 72, 153, 76, 113];
    proof {
        assert(r@ =~= whale_record_discriminator());
    }
    r
}

/// Serializes a record into its 48 storage bytes.
pub fn pack_whale_record(w: &WhaleAccount) -> (r: Vec<u8>)
    ensures
        is_whale_record(r@),
        r@.subrange(8, 40) == w.whale_address@,
        le_value(r@.subrange(40, 48)) == w.transfer_amount,
{
    let mut r = whale_record_discriminator_bytes();
    let mut i: usize = 0;
    while i < 32
        invariant
            i <= 32,
            r@.len() == 8 + i,
            r@.subrange(0, 8) == whale_record_discriminator(),
            r@.subrange(8, 8 + i as int) == w.whale_address@.take(i as int),
        decreases 32 - i,
    {
        r.push(w.whale_address.bytes[i]);
        proof {
            assert(r@.subrange(0, 8) =~= whale_record_discriminator());
            assert(r@.subrange(8, 8 + (i + 1) as int) =~= w.whale_address@.take(i + 1));
        }
        i = i + 1;
    }
    let mut amount = u64_to_le_bytes(w.transfer_amount);
    let ghost mid = r@;
    let ghost amt = amount@;
    r.append(&mut amount);
    proof {
        assert(r@ == mid + amt);
        assert(mid.subrange(8, 40) =~= w.whale_address@.take(32));
        assert(w.whale_address@.take(32) =~= w.whale_address@);
        assert(r@.subrange(0, 8) =~= mid.subrange(0, 8));
        assert(r@.subrange(8, 40) =~= mid.subrange(8, 40));
        assert(r@.subrange(40, 48) =~= amt);
    }
    r
}

/// Parses the 48 storage bytes of a record; anything but a well-formed
/// record is rejected.
pub fn unpack_whale_record(b: &[u8]) -> (r: Result<WhaleAccount, HookError>)
    ensures
        is_whale_record(b@) ==> (r matches Ok(w) && w.whale_address@ == b@.subrange(8, 40)
            && w.transfer_amount == le_value(b@.subrange(40, 48))),
        !is_whale_record(b@) ==> r == Err::<WhaleAccount, HookError>(HookError::MalformedRecord),
{
    if b.len() != 48 {
        return Err(HookError::MalformedRecord);
    }
    let disc = whale_record_discriminator_bytes();
    let mut i: usize = 0;
    while i < 8
        invariant
            i <= 8,
            b@.len() == 48,
            disc@ == whale_record_discriminator(),
            forall|j: int| 0 <= j < i ==> b@[j] == disc@[j],
        decreases 8 - i,
    {
        if b[i] != disc[i] {
            proof {
                assert(b@.subrange(0, 8)[i as int] != whale_record_discriminator()[i as int]);
            }
            return Err(HookError::MalformedRecord);
        }
        i = i + 1;
    }
    proof {
        assert(b@.subrange(0, 8) =~= whale_record_discriminator());
    }
    let mut owner = [0u8; 32];
    let mut k: usize = 0;
    while k < 32
        invariant
            k <= 32,
            b@.len() == 48,
            forall|j: int| 0 <= j < k ==> owner@[j] == b@[8 + j],
        decreases 32 - k,
    {
        owner[k] = b[8 + k];
        k = k + 1;
    }
    let owner_addr = Address { bytes: owner };
    proof {
        assert(owner_addr@ =~= b@.subrange(8, 40));
    }
    let mut amount_bytes: Vec<u8> = Vec::new();
    let mut m: usize = 0;
    while m < 8
        invariant
            m <= 8,
            b@.len() == 48,
            amount_bytes@ == b@.subrange(40, 40 + m as int),
        decreases 8 - m,
    {
        amount_bytes.push(b[40 + m]);
        proof {
            assert(amount_bytes@ =~= b@.subrange(40, 40 + (m + 1) as int));
        }
        m = m + 1;
    }
    let amount = le_bytes_to_u64(amount_bytes.as_slice());
    Ok(WhaleAccount { whale_address: owner_addr, transfer_amount: amount })
}

} // verus!
