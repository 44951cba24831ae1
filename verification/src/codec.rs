//! Little-endian byte codec for the fixed-width fields of the program's
//! records and payloads.

use vstd::prelude::*;

verus! {

/// The unsigned integer that a byte sequence holds in little-endian
/// order: the first byte is the least significant.
pub open spec fn le_value(b: Seq<u8>) -> int
    decreases b.len(),
{
    if b.len() == 0 {
        0
    } else {
        b[0] + 256 * le_value(b.skip(1))
    }
}

/// `256^e`.
pub open spec fn pow256(e: nat) -> int
    decreases e,
{
    if e == 0 {
        1
    } else {
        256 * pow256((e - 1) as nat)
    }
}

/// A little-endian value is bounded by the byte count's range.
pub proof fn lemma_le_value_bound(b: Seq<u8>)
    ensures
        0 <= le_value(b) < pow256(b.len()),
    decreases b.len(),
{
    if b.len() == 0 {
    } else {
        lemma_le_value_bound(b.skip(1));
        assert(256 * le_value(b.skip(1)) <= 256 * (pow256((b.len() - 1) as nat) - 1));
    }
}

/// Eight little-endian bytes hold a value that fits in a `u64`.
pub proof fn lemma_le_value_fits_u64(b: Seq<u8>)
    requires
        b.len() == 8,
    ensures
        0 <= le_value(b) <= u64::MAX,
{
    lemma_le_value_bound(b);
    reveal_with_fuel(pow256, 9);
}

/// Two byte sequences of equal length holding the same little-endian
/// value are identical: the encoding pins every byte.
pub proof fn lemma_le_value_injective(a: Seq<u8>, b: Seq<u8>)
    requires
        a.len() == b.len(),
        le_value(a) == le_value(b),
    ensures
        a =~= b,
    decreases a.len(),
{
    if a.len() > 0 {
        assert(le_value(a) == a[0] + 256 * le_value(a.skip(1)));
        assert(le_value(b) == b[0] + 256 * le_value(b.skip(1)));
        assert(a[0] == b[0]);
        lemma_le_value_injective(a.skip(1), b.skip(1));
        assert forall|i: int| 0 <= i < a.len() implies a[i] == b[i] by {
            if i > 0 {
                assert(a.skip(1)[i - 1] == b.skip(1)[i - 1]);
            }
        }
    }
}

proof fn lemma_le_value_push(b: Seq<u8>, c: u8)
    ensures
        le_value(b.push(c)) == le_value(b) + c * pow256(b.len()),
    decreases b.len(),
{
    if b.len() == 0 {
        assert(b.push(c).skip(1) =~= Seq::<u8>::empty());
        assert(b.push(c)[0] == c);
        assert(le_value(Seq::<u8>::empty()) == 0);
        assert(le_value(b.push(c)) == c + 256 * le_value(b.push(c).skip(1)));
    } else {
        assert(b.push(c).skip(1) =~= b.skip(1).push(c));
        lemma_le_value_push(b.skip(1), c);
        assert(le_value(b.push(c)) == b[0] + 256 * (le_value(b.skip(1)) + c * pow256(
            (b.len() - 1) as nat,
        )));
        assert(256 * (le_value(b.skip(1)) + c * pow256((b.len() - 1) as nat)) == 256 * le_value(
            b.skip(1),
        ) + c * (256 * pow256((b.len() - 1) as nat))) by (nonlinear_arith);
        assert(pow256(b.len()) == 256 * pow256((b.len() - 1) as nat));
        assert(le_value(b.push(c)) == (b[0] + 256 * le_value(b.skip(1))) + c * pow256(b.len()));
    }
}

/// The eight bytes of a 64-bit value in little-endian order.
pub fn u64_to_le_bytes(v: u64) -> (r: Vec<u8>)
    ensures
        r@.len() == 8,
        le_value(r@) == v,
{
    let mut bytes: Vec<u8> = Vec::new();
    let mut x: u64 = v;
    let mut i: usize = 0;
    while i < 8
        invariant
            i <= 8,
            bytes@.len() == i,
            v == le_value(bytes@) + x * pow256(i as nat),
        decreases 8 - i,
    {
        let c: u8 = (x % 256) as u8;
        proof {
            lemma_le_value_push(bytes@, c);
            assert((c + 256 * (x as int / 256)) * pow256(i as nat) == c * pow256(i as nat) + (
            x as int / 256) * (256 * pow256(i as nat))) by (nonlinear_arith);
        }
        bytes.push(c);
        x = x / 256;
        i = i + 1;
    }
    proof {
        lemma_le_value_bound(bytes@);
        reveal_with_fuel(pow256, 9);
        if x > 0 {
            assert(x * pow256(8nat) >= pow256(8nat)) by (nonlinear_arith)
                requires
                    x >= 1,
                    pow256(8nat) >= 1,
            ;
        }
    }
    bytes
}

/// The 64-bit value that eight little-endian bytes hold.
pub fn le_bytes_to_u64(b: &[u8]) -> (r: u64)
    requires
        b@.len() == 8,
    ensures
        r == le_value(b@),
{
    proof {
        lemma_le_value_bound(b@);
        reveal_with_fuel(pow256, 9);
    }
    let mut acc: u64 = 0;
    let mut j: usize = 8;
    while j > 0
        invariant
            j <= 8,
            b@.len() == 8,
            acc == le_value(b@.skip(j as int)),
        decreases j,
    {
        proof {
            lemma_le_value_bound(b@.skip(j - 1));
            lemma_pow256_increases((8 - j + 1) as nat, 8nat);
            reveal_with_fuel(pow256, 9);
            assert(b@.skip(j - 1).skip(1) =~= b@.skip(j as int));
            assert(256 * le_value(b@.skip(j as int)) <= 256 * (pow256((8 - j) as nat) - 1));
            assert(256 * (pow256((8 - j) as nat)) == pow256((8 - j + 1) as nat));
        }
        acc = acc * 256 + (b[j - 1] as u64);
        j = j - 1;
    }
    proof {
        assert(b@.skip(0) =~= b@);
    }
    acc
}

proof fn lemma_pow256_increases(a: nat, b: nat)
    requires
        a <= b,
    ensures
        pow256(a) <= pow256(b),
    decreases b,
{
    if a < b {
        lemma_pow256_increases(a, (b - 1) as nat);
        lemma_pow256_positive((b - 1) as nat);
    }
}

proof fn lemma_pow256_positive(e: nat)
    ensures
        pow256(e) >= 1,
    decreases e,
{
    if e > 0 {
        lemma_pow256_positive((e - 1) as nat);
    }
}

} // verus!
