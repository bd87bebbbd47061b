//! The mathematical model of bit sequences: what a sequence of bits is worth
//! as a base-2 numeral, and how an integer is written out as bits.

use vstd::arithmetic::power2::{lemma2_to64, pow2};
use vstd::prelude::*;

verus! {

/// Value of `s` read as a base-2 numeral, most significant bit first.
pub open spec fn numeral_value(s: Seq<bool>) -> nat
    decreases s.len(),
{
    if s.len() == 0 {
        0
    } else {
        2 * numeral_value(s.drop_last()) + if s.last() {
            1nat
        } else {
            0nat
        }
    }
}

/// The `w` lowest bits of `v`, most significant bit first.
pub open spec fn bits_of(v: nat, w: nat) -> Seq<bool>
    decreases w,
{
    if w == 0 {
        Seq::empty()
    } else {
        bits_of(v / 2, (w - 1) as nat).push(v % 2 == 1)
    }
}

/// The `w`-bit pattern of `x`: `x` itself when it is not negative, its two's
/// complement otherwise.
pub open spec fn pattern_of(x: int, w: nat) -> nat {
    if x >= 0 {
        x as nat
    } else {
        (x + pow2(w)) as nat
    }
}

/// The bits of `vals` in order, each written on `w` bits: most significant
/// bit first, or with its bit order reversed when `little` holds.
pub open spec fn encode(vals: Seq<nat>, w: nat, little: bool) -> Seq<bool>
    decreases vals.len(),
{
    if vals.len() == 0 {
        Seq::empty()
    } else {
        let b = bits_of(vals.last(), w);
        encode(vals.drop_last(), w, little) + if little {
            b.reverse()
        } else {
            b
        }
    }
}

pub proof fn lemma_bits_of_len(v: nat, w: nat)
    ensures
        bits_of(v, w).len() == w,
    decreases w,
{
    if w > 0 {
        lemma_bits_of_len(v / 2, (w - 1) as nat);
    }
}

/// A numeral of `n` bits is below `2^n`.
pub proof fn lemma_numeral_value_bound(s: Seq<bool>)
    ensures
        numeral_value(s) < pow2(s.len()),
    decreases s.len(),
{
    if s.len() > 0 {
        lemma_numeral_value_bound(s.drop_last());
        vstd::arithmetic::power2::lemma_pow2_unfold(s.len());
    } else {
        lemma2_to64();
    }
}

/// Writing a value on enough bits and reading them back gives the value.
pub proof fn lemma_bits_of_value(v: nat, w: nat)
    requires
        v < pow2(w),
    ensures
        numeral_value(bits_of(v, w)) == v,
    decreases w,
{
    if w == 0 {
        lemma2_to64();
    } else {
        vstd::arithmetic::power2::lemma_pow2_unfold(w);
        assert(v / 2 < pow2((w - 1) as nat));
        lemma_bits_of_value(v / 2, (w - 1) as nat);
        let b = bits_of(v, w);
        assert(b.drop_last() == bits_of(v / 2, (w - 1) as nat));
    }
}

pub proof fn lemma_encode_len(vals: Seq<nat>, w: nat, little: bool)
    ensures
        encode(vals, w, little).len() == vals.len() * w,
    decreases vals.len(),
{
    if vals.len() > 0 {
        lemma_encode_len(vals.drop_last(), w, little);
        lemma_bits_of_len(vals.last(), w);
        vstd::arithmetic::mul::lemma_mul_is_distributive_add_other_way(
            w as int,
            (vals.len() - 1) as int,
            1,
        );
    }
}

/// The `w` bits of the `i`-th value sit at offset `i * w` of the encoding.
pub proof fn lemma_encode_chunk(vals: Seq<nat>, w: nat, little: bool, i: int)
    requires
        0 <= i < vals.len(),
    ensures
        encode(vals, w, little).len() == vals.len() * w,
        0 <= i * w,
        i * w + w <= vals.len() * w,
        encode(vals, w, little).subrange(i * w, i * w + w) == if little {
            bits_of(vals[i], w).reverse()
        } else {
            bits_of(vals[i], w)
        },
    decreases vals.len(),
{
    let n = vals.len() - 1;
    lemma_encode_len(vals, w, little);
    lemma_encode_len(vals.drop_last(), w, little);
    lemma_bits_of_len(vals.last(), w);
    vstd::arithmetic::mul::lemma_mul_nonnegative(i, w as int);
    vstd::arithmetic::mul::lemma_mul_inequality(i + 1, vals.len() as int, w as int);
    vstd::arithmetic::mul::lemma_mul_is_distributive_add_other_way(w as int, i, 1);
    let e = encode(vals, w, little);
    let prefix = encode(vals.drop_last(), w, little);
    if i < n {
        lemma_encode_chunk(vals.drop_last(), w, little, i);
        vstd::arithmetic::mul::lemma_mul_inequality(i + 1, n as int, w as int);
        assert(e.subrange(i * w, i * w + w) == prefix.subrange(i * w, i * w + w));
    } else {
        vstd::arithmetic::mul::lemma_mul_is_distributive_add_other_way(w as int, n as int, 1);
        assert(e.subrange(i * w, i * w + w) == e.subrange(prefix.len() as int, e.len() as int));
    }
}

} // verus!
