//! Single-bit views of 64-bit masks, and a population count.
//!
//! Everything the engine states about a bitboard goes through `bit64`:
//! whether bit `i` of a mask is set. The lemmas here translate the mask
//! operations the engine performs (test, clear, set, and, or, xor) into
//! statements about individual bits, and back.

use vstd::prelude::*;

verus! {

/// Bit `i` of mask `m` (little-endian: bit 0 is the least significant).
pub open spec fn bit64(m: u64, i: u64) -> bool {
    (m >> i) & 1 == 1
}

/// The zero mask has no bit set.
pub broadcast proof fn lemma_bit_zero(i: u64)
    by (bit_vector)
    requires
        i < 64,
    ensures
        !#[trigger] bit64(0u64, i),
{
}

/// Clearing bit `x` of `m` clears exactly that bit.
pub broadcast proof fn lemma_bit_clear(m: u64, x: u64, i: u64)
    by (bit_vector)
    requires
        x < 64,
        i < 64,
    ensures
        #[trigger] bit64(m & !(1u64 << x), i) <==> (bit64(m, i) && i != x),
{
}

/// Setting bit `x` of `m` sets exactly that bit.
pub broadcast proof fn lemma_bit_set(m: u64, x: u64, i: u64)
    by (bit_vector)
    requires
        x < 64,
        i < 64,
    ensures
        #[trigger] bit64(m | (1u64 << x), i) <==> (bit64(m, i) || i == x),
{
}

/// A conjunction of masks holds the conjunction of their bits.
pub broadcast proof fn lemma_bit_and(a: u64, b: u64, i: u64)
    by (bit_vector)
    requires
        i < 64,
    ensures
        #[trigger] bit64(a & b, i) <==> (bit64(a, i) && bit64(b, i)),
{
}

/// A disjunction of masks holds the disjunction of their bits.
pub broadcast proof fn lemma_bit_or(a: u64, b: u64, i: u64)
    by (bit_vector)
    requires
        i < 64,
    ensures
        #[trigger] bit64(a | b, i) <==> (bit64(a, i) || bit64(b, i)),
{
}

proof fn lemma_bit_xor(a: u64, b: u64, i: u64)
    by (bit_vector)
    requires
        i < 64,
    ensures
        bit64(a ^ b, i) <==> (bit64(a, i) != bit64(b, i)),
{
}

proof fn lemma_high_shift_zero(a: u64, k: u64)
    by (bit_vector)
    requires
        k < 63,
        a >> (k + 1) == 0,
        !bit64(a, k),
    ensures
        a >> k == 0,
{
}

proof fn lemma_top_bit_shift(a: u64)
    by (bit_vector)
    requires
        !bit64(a, 63),
    ensures
        a >> 63 == 0,
{
}

proof fn lemma_shifts_down_to_zero(a: u64, k: u64)
    requires
        k < 64,
        forall|i: u64| k <= i < 64 ==> !bit64(a, i),
    ensures
        a >> k == 0,
    decreases 64 - k,
{
    if k == 63 {
        lemma_top_bit_shift(a);
    } else {
        lemma_shifts_down_to_zero(a, (k + 1) as u64);
        lemma_high_shift_zero(a, k);
    }
}

/// A mask with no bit set is zero.
pub proof fn lemma_zero_of_bits(a: u64)
    requires
        forall|i: u64| i < 64 ==> !bit64(a, i),
    ensures
        a == 0,
{
    lemma_shifts_down_to_zero(a, 0);
    assert(a >> 0u64 == 0 ==> a == 0) by (bit_vector);
}

/// Two masks that agree on every bit are equal.
pub proof fn lemma_eq_of_bits(a: u64, b: u64)
    requires
        forall|i: u64| i < 64 ==> bit64(a, i) == bit64(b, i),
    ensures
        a == b,
{
    assert forall|i: u64| i < 64 implies !bit64(a ^ b, i) by {
        lemma_bit_xor(a, b, i);
    }
    lemma_zero_of_bits(a ^ b);
    assert(a ^ b == 0 ==> a == b) by (bit_vector);
}

pub open spec fn pc_rec(m: u64, n: nat) -> nat
    decreases n,
{
    if n == 0 {
        0
    } else {
        ((m & 1) as nat) + pc_rec(m >> 1u64, (n - 1) as nat)
    }
}

/// The number of set bits of a 64-bit mask.
pub open spec fn popcnt64(m: u64) -> nat {
    pc_rec(m, 64)
}

proof fn lemma_pc_split_rec(m: u64, x: u64, n: nat)
    requires
        x < n,
        n <= 64,
    ensures
        pc_rec(m, n) == pc_rec(m & !(1u64 << x), n) + (if bit64(m, x) {
            1nat
        } else {
            0nat
        }),
    decreases n,
{
    let cleared = m & !(1u64 << x);
    if x == 0 {
        assert(cleared & 1 == 0 && cleared >> 1u64 == m >> 1u64 && (bit64(m, 0) <==> m & 1 == 1)
            && m & 1 < 2) by (bit_vector)
            requires
                cleared == m & !(1u64 << 0u64),
        ;
    } else {
        assert(cleared & 1 == m & 1 && cleared >> 1u64 == (m >> 1u64) & !(1u64 << ((x - 1) as u64))
            && (bit64(m, x) <==> bit64(m >> 1u64, (x - 1) as u64))) by (bit_vector)
            requires
                0 < x < 64,
                cleared == m & !(1u64 << x),
        ;
        lemma_pc_split_rec(m >> 1u64, (x - 1) as u64, (n - 1) as nat);
    }
}

/// The population count of `m` splits into bit `x` and the rest.
pub proof fn lemma_popcnt_split(m: u64, x: u64)
    requires
        x < 64,
    ensures
        popcnt64(m) == popcnt64(m & !(1u64 << x)) + (if bit64(m, x) {
            1nat
        } else {
            0nat
        }),
{
    lemma_pc_split_rec(m, x, 64);
}

/// Clearing a set bit lowers the population count by one.
pub proof fn lemma_popcnt_clear(m: u64, x: u64)
    requires
        x < 64,
        bit64(m, x),
    ensures
        popcnt64(m & !(1u64 << x)) == popcnt64(m) - 1,
{
    lemma_popcnt_split(m, x);
}

/// Setting an unset bit raises the population count by one.
pub proof fn lemma_popcnt_set(m: u64, x: u64)
    requires
        x < 64,
        !bit64(m, x),
    ensures
        popcnt64(m | (1u64 << x)) == popcnt64(m) + 1,
{
    let set = m | (1u64 << x);
    assert(set & !(1u64 << x) == m && bit64(set, x)) by (bit_vector)
        requires
            x < 64,
            !bit64(m, x),
            set == m | (1u64 << x),
    ;
    lemma_popcnt_split(set, x);
}

proof fn lemma_pc_step(m: u64, j: u64, n: nat)
    requires
        j < n,
        n <= 64,
    ensures
        pc_rec(m, (j + 1) as nat) == pc_rec(m, j as nat) + ((m >> j) & 1),
    decreases j,
{
    if j == 0 {
        assert((m >> 0u64) & 1 == m & 1) by (bit_vector);
        assert(pc_rec(m >> 1u64, 0) == 0);
        assert(pc_rec(m, 0) == 0);
    } else {
        lemma_pc_step(m >> 1u64, (j - 1) as u64, (n - 1) as nat);
        assert((m >> 1u64) >> ((j - 1) as u64) == m >> j) by (bit_vector)
            requires
                0 < j < 64,
        ;
    }
}

/// Counts the set bits of `m`.
pub fn popcount(m: u64) -> (count: u64)
    ensures
        count == popcnt64(m),
{
    let mut count: u64 = 0;
    let mut j: u64 = 0;
    while j < 64
        invariant
            j <= 64,
            count == pc_rec(m, j as nat),
            count <= j,
        decreases 64 - j,
    {
        proof {
            lemma_pc_step(m, j, (j + 1) as nat);
            assert((m >> j) & 1 < 2) by (bit_vector);
        }
        count = count + ((m >> j) & 1);
        j = j + 1;
    }
    count
}

} // verus!
