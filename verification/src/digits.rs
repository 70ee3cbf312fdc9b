//! Exact decimal lengths of integers, the arithmetic behind the
//! threshold ladders of the accumulating serializer.

use vstd::prelude::*;

verus! {

/// `10^k`.
pub open spec fn pow10(k: nat) -> nat
    decreases k,
{
    if k == 0 {
        1
    } else {
        10 * pow10((k - 1) as nat)
    }
}

/// The number of decimal digits of `n`, written without leading zeros
/// (`0` itself is written as one digit).
pub open spec fn dec_len(n: nat) -> nat
    decreases n,
{
    if n < 10 {
        1
    } else {
        1 + dec_len(n / 10)
    }
}

/// The number of characters a JSON encoder writes for the integer `v`:
/// its decimal digits, plus a leading minus sign when `v` is negative.
pub open spec fn dec_len_signed(v: int) -> nat {
    if v < 0 {
        1 + dec_len((-v) as nat)
    } else {
        dec_len(v as nat)
    }
}

/// The values of `pow10` up to the largest power of ten a 64-bit
/// integer can hold.
pub proof fn lemma_pow10_values()
    ensures
        pow10(0) == 1,
        pow10(1) == 10,
        pow10(2) == 100,
        pow10(3) == 1_000,
        pow10(4) == 10_000,
        pow10(5) == 100_000,
        pow10(6) == 1_000_000,
        pow10(7) == 10_000_000,
        pow10(8) == 100_000_000,
        pow10(9) == 1_000_000_000,
        pow10(10) == 10_000_000_000,
        pow10(11) == 100_000_000_000,
        pow10(12) == 1_000_000_000_000,
        pow10(13) == 10_000_000_000_000,
        pow10(14) == 100_000_000_000_000,
        pow10(15) == 1_000_000_000_000_000,
        pow10(16) == 10_000_000_000_000_000,
        pow10(17) == 100_000_000_000_000_000,
        pow10(18) == 1_000_000_000_000_000_000,
        pow10(19) == 10_000_000_000_000_000_000,
        pow10(20) == 100_000_000_000_000_000_000,
{
    reveal_with_fuel(pow10, 21);
    assert(pow10(0) == 1);
    assert(pow10(1) == 10);
    assert(pow10(2) == 100);
    assert(pow10(3) == 1_000);
    assert(pow10(4) == 10_000);
    assert(pow10(5) == 100_000);
    assert(pow10(6) == 1_000_000);
    assert(pow10(7) == 10_000_000);
    assert(pow10(8) == 100_000_000);
    assert(pow10(9) == 1_000_000_000);
    assert(pow10(10) == 10_000_000_000);
    assert(pow10(11) == 100_000_000_000);
    assert(pow10(12) == 1_000_000_000_000);
    assert(pow10(13) == 10_000_000_000_000);
    assert(pow10(14) == 100_000_000_000_000);
    assert(pow10(15) == 1_000_000_000_000_000);
    assert(pow10(16) == 10_000_000_000_000_000);
    assert(pow10(17) == 100_000_000_000_000_000);
    assert(pow10(18) == 1_000_000_000_000_000_000);
    assert(pow10(19) == 10_000_000_000_000_000_000);
    assert(pow10(20) == 100_000_000_000_000_000_000);
}

/// A number between two adjacent powers of ten has exactly `k` digits.
pub proof fn lemma_dec_len_interval(n: nat, k: nat)
    requires
        1 <= k,
        pow10((k - 1) as nat) <= n < pow10(k),
    ensures
        dec_len(n) == k,
    decreases k,
{
    if k == 1 {
        assert(n < 10);
    } else {
        let p = pow10((k - 2) as nat);
        assert(pow10((k - 1) as nat) == 10 * p);
        assert(pow10(k) == 10 * pow10((k - 1) as nat));
        assert(n >= 10);
        vstd::arithmetic::div_mod::lemma_div_is_ordered(10 * (p as int), n as int, 10);
        vstd::arithmetic::div_mod::lemma_div_multiples_vanish(p as int, 10);
        assert(n / 10 >= p);
        vstd::arithmetic::div_mod::lemma_multiply_divide_lt(
            n as int,
            10,
            pow10((k - 1) as nat) as int,
        );
        assert(n / 10 < pow10((k - 1) as nat));
        lemma_dec_len_interval(n / 10, (k - 1) as nat);
    }
}

/// The full classification of an unsigned 64-bit value by digit count:
/// each band between adjacent powers of ten gets one length.
pub proof fn lemma_dec_len_u64(v: u64)
    ensures
        v < 10 ==> dec_len(v as nat) == 1,
        10 <= v < 100 ==> dec_len(v as nat) == 2,
        100 <= v < 1_000 ==> dec_len(v as nat) == 3,
        1_000 <= v < 10_000 ==> dec_len(v as nat) == 4,
        10_000 <= v < 100_000 ==> dec_len(v as nat) == 5,
        100_000 <= v < 1_000_000 ==> dec_len(v as nat) == 6,
        1_000_000 <= v < 10_000_000 ==> dec_len(v as nat) == 7,
        10_000_000 <= v < 100_000_000 ==> dec_len(v as nat) == 8,
        100_000_000 <= v < 1_000_000_000 ==> dec_len(v as nat) == 9,
        1_000_000_000 <= v < 10_000_000_000 ==> dec_len(v as nat) == 10,
        10_000_000_000 <= v < 100_000_000_000 ==> dec_len(v as nat) == 11,
        100_000_000_000 <= v < 1_000_000_000_000 ==> dec_len(v as nat) == 12,
        1_000_000_000_000 <= v < 10_000_000_000_000 ==> dec_len(v as nat) == 13,
        10_000_000_000_000 <= v < 100_000_000_000_000 ==> dec_len(v as nat) == 14,
        100_000_000_000_000 <= v < 1_000_000_000_000_000 ==> dec_len(v as nat) == 15,
        1_000_000_000_000_000 <= v < 10_000_000_000_000_000 ==> dec_len(v as nat) == 16,
        10_000_000_000_000_000 <= v < 100_000_000_000_000_000 ==> dec_len(v as nat) == 17,
        100_000_000_000_000_000 <= v < 1_000_000_000_000_000_000 ==> dec_len(v as nat) == 18,
        1_000_000_000_000_000_000 <= v < 10_000_000_000_000_000_000 ==> dec_len(v as nat) == 19,
        10_000_000_000_000_000_000 <= v ==> dec_len(v as nat) == 20,
{
    lemma_pow10_values();
    if v < 10 {
    } else if v < 100 {
        lemma_dec_len_interval(v as nat, 2);
    } else if v < 1_000 {
        lemma_dec_len_interval(v as nat, 3);
    } else if v < 10_000 {
        lemma_dec_len_interval(v as nat, 4);
    } else if v < 100_000 {
        lemma_dec_len_interval(v as nat, 5);
    } else if v < 1_000_000 {
        lemma_dec_len_interval(v as nat, 6);
    } else if v < 10_000_000 {
        lemma_dec_len_interval(v as nat, 7);
    } else if v < 100_000_000 {
        lemma_dec_len_interval(v as nat, 8);
    } else if v < 1_000_000_000 {
        lemma_dec_len_interval(v as nat, 9);
    } else if v < 10_000_000_000 {
        lemma_dec_len_interval(v as nat, 10);
    } else if v < 100_000_000_000 {
        lemma_dec_len_interval(v as nat, 11);
    } else if v < 1_000_000_000_000 {
        lemma_dec_len_interval(v as nat, 12);
    } else if v < 10_000_000_000_000 {
        lemma_dec_len_interval(v as nat, 13);
    } else if v < 100_000_000_000_000 {
        lemma_dec_len_interval(v as nat, 14);
    } else if v < 1_000_000_000_000_000 {
        lemma_dec_len_interval(v as nat, 15);
    } else if v < 10_000_000_000_000_000 {
        lemma_dec_len_interval(v as nat, 16);
    } else if v < 100_000_000_000_000_000 {
        lemma_dec_len_interval(v as nat, 17);
    } else if v < 1_000_000_000_000_000_000 {
        lemma_dec_len_interval(v as nat, 18);
    } else if v < 10_000_000_000_000_000_000 {
        lemma_dec_len_interval(v as nat, 19);
    } else {
        lemma_dec_len_interval(v as nat, 20);
    }
}

/// The same classification for a signed 64-bit value, minus sign included.
pub proof fn lemma_dec_len_i64(v: i64)
    ensures
        v <= -1_000_000_000_000_000_000 ==> dec_len_signed(v as int) == 20,
        -1_000_000_000_000_000_000 < v <= -100_000_000_000_000_000 ==> dec_len_signed(
            v as int,
        ) == 19,
        -100_000_000_000_000_000 < v <= -10_000_000_000_000_000 ==> dec_len_signed(v as int)
            == 18,
        -10_000_000_000_000_000 < v <= -1_000_000_000_000_000 ==> dec_len_signed(v as int) == 17,
        -1_000_000_000_000_000 < v <= -100_000_000_000_000 ==> dec_len_signed(v as int) == 16,
        -100_000_000_000_000 < v <= -10_000_000_000_000 ==> dec_len_signed(v as int) == 15,
        -10_000_000_000_000 < v <= -1_000_000_000_000 ==> dec_len_signed(v as int) == 14,
        -1_000_000_000_000 < v <= -100_000_000_000 ==> dec_len_signed(v as int) == 13,
        -100_000_000_000 < v <= -10_000_000_000 ==> dec_len_signed(v as int) == 12,
        -10_000_000_000 < v <= -1_000_000_000 ==> dec_len_signed(v as int) == 11,
        -1_000_000_000 < v <= -100_000_000 ==> dec_len_signed(v as int) == 10,
        -100_000_000 < v <= -10_000_000 ==> dec_len_signed(v as int) == 9,
        -10_000_000 < v <= -1_000_000 ==> dec_len_signed(v as int) == 8,
        -1_000_000 < v <= -100_000 ==> dec_len_signed(v as int) == 7,
        -100_000 < v <= -10_000 ==> dec_len_signed(v as int) == 6,
        -10_000 < v <= -1_000 ==> dec_len_signed(v as int) == 5,
        -1_000 < v <= -100 ==> dec_len_signed(v as int) == 4,
        -100 < v <= -10 ==> dec_len_signed(v as int) == 3,
        -10 < v <= -1 ==> dec_len_signed(v as int) == 2,
        0 <= v < 10 ==> dec_len_signed(v as int) == 1,
        10 <= v < 100 ==> dec_len_signed(v as int) == 2,
        100 <= v < 1_000 ==> dec_len_signed(v as int) == 3,
        1_000 <= v < 10_000 ==> dec_len_signed(v as int) == 4,
        10_000 <= v < 100_000 ==> dec_len_signed(v as int) == 5,
        100_000 <= v < 1_000_000 ==> dec_len_signed(v as int) == 6,
        1_000_000 <= v < 10_000_000 ==> dec_len_signed(v as int) == 7,
        10_000_000 <= v < 100_000_000 ==> dec_len_signed(v as int) == 8,
        100_000_000 <= v < 1_000_000_000 ==> dec_len_signed(v as int) == 9,
        1_000_000_000 <= v < 10_000_000_000 ==> dec_len_signed(v as int) == 10,
        10_000_000_000 <= v < 100_000_000_000 ==> dec_len_signed(v as int) == 11,
        100_000_000_000 <= v < 1_000_000_000_000 ==> dec_len_signed(v as int) == 12,
        1_000_000_000_000 <= v < 10_000_000_000_000 ==> dec_len_signed(v as int) == 13,
        10_000_000_000_000 <= v < 100_000_000_000_000 ==> dec_len_signed(v as int) == 14,
        100_000_000_000_000 <= v < 1_000_000_000_000_000 ==> dec_len_signed(v as int) == 15,
        1_000_000_000_000_000 <= v < 10_000_000_000_000_000 ==> dec_len_signed(v as int) == 16,
        10_000_000_000_000_000 <= v < 100_000_000_000_000_000 ==> dec_len_signed(v as int) == 17,
        100_000_000_000_000_000 <= v < 1_000_000_000_000_000_000 ==> dec_len_signed(v as int)
            == 18,
        1_000_000_000_000_000_000 <= v ==> dec_len_signed(v as int) == 19,
{
    lemma_pow10_values();
    if v < 0 {
        let m = (-(v as int)) as nat;
        if m < 10 {
        } else if m < 100 {
            lemma_dec_len_interval(m, 2);
        } else if m < 1_000 {
            lemma_dec_len_interval(m, 3);
        } else if m < 10_000 {
            lemma_dec_len_interval(m, 4);
        } else if m < 100_000 {
            lemma_dec_len_interval(m, 5);
        } else if m < 1_000_000 {
            lemma_dec_len_interval(m, 6);
        } else if m < 10_000_000 {
            lemma_dec_len_interval(m, 7);
        } else if m < 100_000_000 {
            lemma_dec_len_interval(m, 8);
        } else if m < 1_000_000_000 {
            lemma_dec_len_interval(m, 9);
        } else if m < 10_000_000_000 {
            lemma_dec_len_interval(m, 10);
        } else if m < 100_000_000_000 {
            lemma_dec_len_interval(m, 11);
        } else if m < 1_000_000_000_000 {
            lemma_dec_len_interval(m, 12);
        } else if m < 10_000_000_000_000 {
            lemma_dec_len_interval(m, 13);
        } else if m < 100_000_000_000_000 {
            lemma_dec_len_interval(m, 14);
        } else if m < 1_000_000_000_000_000 {
            lemma_dec_len_interval(m, 15);
        } else if m < 10_000_000_000_000_000 {
            lemma_dec_len_interval(m, 16);
        } else if m < 100_000_000_000_000_000 {
            lemma_dec_len_interval(m, 17);
        } else if m < 1_000_000_000_000_000_000 {
            lemma_dec_len_interval(m, 18);
        } else {
            lemma_dec_len_interval(m, 19);
        }
    } else {
        lemma_dec_len_u64(v as u64);
    }
}

} // verus!
