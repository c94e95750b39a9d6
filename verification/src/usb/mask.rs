//! Endpoint masks: sixteen-bit words in which bit `n` stands for endpoint
//! `n`.

use vstd::prelude::*;

verus! {

/// Whether bit `n` of `mask` is set.
pub open spec fn bit(mask: u16, n: int) -> bool {
    0 <= n < 16 && (mask >> (n as u16)) & 1 == 1
}

/// `mask` with bit `n` set as well.
pub fn set_bit(mask: u16, n: u16) -> (result: u16)
    requires
        n < 16,
    ensures
        forall|k: int| 0 <= k < 16 ==> #[trigger] bit(result, k) == (bit(mask, k) || k == n),
{
    let result = mask | (1u16 << n);
    proof {
        assert forall|k: int| 0 <= k < 16 implies #[trigger] bit(result, k) == (bit(mask, k) || k
            == n) by {
            let kk = k as u16;
            assert(kk < 16 && n < 16 ==> (((mask | (1u16 << n)) >> kk) & 1 == 1) == ((mask >> kk)
                & 1 == 1 || kk == n)) by (bit_vector);
        }
    }
    result
}

/// Whether bit `n` of `mask` is set.
pub fn test_bit(mask: u16, n: u16) -> (set: bool)
    requires
        n < 16,
    ensures
        set == bit(mask, n as int),
{
    proof {
        assert(n < 16 ==> ((mask & (1u16 << n)) != 0) == ((mask >> n) & 1 == 1)) by (bit_vector);
    }
    (mask & (1u16 << n)) != 0
}

/// A mask is zero exactly when none of its bits is set.
pub proof fn lemma_zero_mask(mask: u16)
    ensures
        mask == 0 <==> forall|k: int| 0 <= k < 16 ==> !#[trigger] bit(mask, k),
{
    if mask != 0 {
        assert(mask != 0 ==> ((mask >> 0u16) & 1 == 1) || ((mask >> 1u16) & 1 == 1) || ((mask
            >> 2u16) & 1 == 1) || ((mask >> 3u16) & 1 == 1) || ((mask >> 4u16) & 1 == 1) || ((mask
            >> 5u16) & 1 == 1) || ((mask >> 6u16) & 1 == 1) || ((mask >> 7u16) & 1 == 1) || ((mask
            >> 8u16) & 1 == 1) || ((mask >> 9u16) & 1 == 1) || ((mask >> 10u16) & 1 == 1) || ((mask
            >> 11u16) & 1 == 1) || ((mask >> 12u16) & 1 == 1) || ((mask >> 13u16) & 1 == 1) || ((
        mask >> 14u16) & 1 == 1) || ((mask >> 15u16) & 1 == 1)) by (bit_vector);
        assert(bit(mask, 0) || bit(mask, 1) || bit(mask, 2) || bit(mask, 3) || bit(mask, 4) || bit(
            mask,
            5,
        ) || bit(mask, 6) || bit(mask, 7) || bit(mask, 8) || bit(mask, 9) || bit(mask, 10) || bit(
            mask,
            11,
        ) || bit(mask, 12) || bit(mask, 13) || bit(mask, 14) || bit(mask, 15));
    } else {
        assert forall|k: int| 0 <= k < 16 implies !#[trigger] bit(mask, k) by {
            let kk = k as u16;
            assert(kk < 16 ==> (0u16 >> kk) & 1 == 0) by (bit_vector);
        }
    }
}

/// Two masks with the same bits are the same mask.
pub proof fn lemma_bits_determine_mask(a: u16, b: u16)
    requires
        forall|k: int| 0 <= k < 16 ==> #[trigger] bit(a, k) == bit(b, k),
    ensures
        a == b,
{
    let x = a ^ b;
    if x != 0 {
        lemma_zero_mask(x);
        let k = choose|k: int| 0 <= k < 16 && #[trigger] bit(x, k);
        let kk = k as u16;
        assert(bit(a, k) == bit(b, k));
        assert(kk < 16 && ((a ^ b) >> kk) & 1 == 1 ==> (((a >> kk) & 1 == 1) != ((b >> kk) & 1
            == 1))) by (bit_vector);
    } else {
        assert(a ^ b == 0 ==> a == b) by (bit_vector);
    }
}

} // verus!
