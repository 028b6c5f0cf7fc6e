use vstd::prelude::*;

use vstd::arithmetic::div_mod::{
    lemma_div_is_ordered, lemma_div_pos_is_pos, lemma_fundamental_div_mod,
    lemma_fundamental_div_mod_converse,
};
use vstd::arithmetic::mul::{
    lemma_mul_inequality, lemma_mul_is_commutative, lemma_mul_is_distributive_add,
    lemma_mul_is_distributive_sub, lemma_mul_nonnegative,
};

use crate::errors::Groth16Error;

verus! {

/// The byte that position `i` receives when every `k`-byte limb of `s` is
/// byte-reversed in place: the mirror position within the same limb.
pub open spec fn limb_reversed_index(s: Seq<u8>, k: int, i: int) -> u8
    recommends
        1 <= k,
        0 <= i < s.len(),
        s.len() as int % k == 0,
{
    s[k * (i / k) + (k - 1 - i % k)]
}

/// `s` with each consecutive `k`-byte limb byte-reversed, limb boundaries and
/// limb order kept.
pub open spec fn reverse_limbs(s: Seq<u8>, k: int) -> Seq<u8>
    recommends
        1 <= k,
        s.len() as int % k == 0,
{
    Seq::new(s.len(), |i: int| limb_reversed_index(s, k, i))
}

/// Reorders `bytes` limb by limb: every consecutive `limb_size`-byte chunk is
/// byte-reversed, translating between the big-endian wire order and the
/// little-endian order native to the curve-arithmetic backend. Fails exactly
/// when the input is not a whole number of limbs.
pub fn convert_endianness(bytes: &[u8], limb_size: usize) -> (r: Result<Vec<u8>, Groth16Error>)
    ensures
        match r {
            Ok(v) => limb_size >= 1 && bytes@.len() as int % (limb_size as int) == 0 && v@
                == reverse_limbs(bytes@, limb_size as int),
            Err(e) => (limb_size < 1 || bytes@.len() as int % (limb_size as int) != 0) && e
                == Groth16Error::InvalidLength,
        },
{
    if limb_size == 0 || bytes.len() % limb_size != 0 {
        return Err(Groth16Error::InvalidLength);
    }
    let ghost k = limb_size as int;
    let ghost total: int = bytes@.len() as int / k;
    proof {
        lemma_fundamental_div_mod(bytes@.len() as int, k);
        lemma_div_pos_is_pos(bytes@.len() as int, k);
    }
    let mut out: Vec<u8> = Vec::new();
    let mut base: usize = 0;
    let ghost mut q: int = 0;
    while base < bytes.len()
        invariant
            1 <= limb_size,
            k == limb_size as int,
            bytes@.len() <= usize::MAX,
            bytes@.len() as int == k * total,
            0 <= q <= total,
            base as int == k * q,
            base <= bytes@.len(),
            out@.len() == base,
            forall|i: int|
                0 <= i < base ==> out@[i] == limb_reversed_index(bytes@, k, i),
        decreases bytes@.len() - base,
    {
        proof {
            // base < len and both are multiples of k, so a whole limb remains.
            lemma_mul_is_commutative(k, q);
            lemma_mul_is_commutative(k, total);
            if q >= total {
                lemma_mul_inequality(total, q, k);
            }
            lemma_mul_inequality(q + 1, total, k);
            lemma_mul_is_distributive_add(k, q, 1);
            lemma_mul_is_commutative(k, q + 1);
        }
        let mut j: usize = 0;
        while j < limb_size
            invariant
                1 <= limb_size,
                k == limb_size as int,
                base as int == k * q,
                bytes@.len() <= usize::MAX,
                base + limb_size <= bytes@.len(),
                j <= limb_size,
                out@.len() == base + j,
                forall|i: int|
                    0 <= i < base + j ==> out@[i] == limb_reversed_index(bytes@, k, i),
            decreases limb_size - j,
        {
            proof {
                lemma_mul_is_commutative(k, q);
                lemma_fundamental_div_mod_converse((base + j) as int, k, q, j as int);
            }
            out.push(bytes[base + (limb_size - 1 - j)]);
            j = j + 1;
        }
        base = base + limb_size;
        proof {
            q = q + 1;
        }
    }
    proof {
        assert(out@ =~= reverse_limbs(bytes@, limb_size as int));
    }
    Ok(out)
}

/// Endianness conversion is an involution: reversing every limb twice gives
/// back the original byte sequence, for any sequence that is a whole number
/// of limbs.
pub proof fn lemma_convert_endianness_involution(s: Seq<u8>, k: int)
    requires
        1 <= k,
        s.len() as int % k == 0,
    ensures
        reverse_limbs(reverse_limbs(s, k), k) == s,
{
    let t = reverse_limbs(s, k);
    lemma_fundamental_div_mod(s.len() as int, k);
    let m: int = s.len() as int / k;
    assert forall|i: int| 0 <= i < s.len() implies reverse_limbs(t, k)[i] == s[i] by {
        lemma_fundamental_div_mod(i, k);
        let q = i / k;
        let r = i % k;
        lemma_div_pos_is_pos(i, k);
        lemma_mul_nonnegative(k, q);
        let j = k * q + (k - 1 - r);
        // The mirror position lies in the same limb, hence within bounds.
        lemma_mul_is_distributive_sub(k, m, 1);
        lemma_mul_is_commutative(m - 1, k);
        lemma_fundamental_div_mod_converse(k * m - 1, k, m - 1, k - 1);
        lemma_div_is_ordered(i, k * m - 1, k);
        lemma_mul_inequality(q + 1, m, k);
        lemma_mul_is_commutative(q + 1, k);
        lemma_mul_is_commutative(m, k);
        lemma_mul_is_distributive_add(k, q, 1);
        lemma_fundamental_div_mod_converse(j, k, q, k - 1 - r);
        assert(t[j] == s[k * q + r]);
    };
    assert(reverse_limbs(reverse_limbs(s, k), k) =~= s);
}

} // verus!

