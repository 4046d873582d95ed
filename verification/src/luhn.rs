//! The checksum engine: a positional weighted digit sum over a digit
//! string, accepted exactly when the sum is divisible by ten.
//!
//! Characters are numbered from the rightmost one, which has position one.
//! A digit at an odd position counts as itself; a digit at an even position
//! is doubled, and nine is subtracted when the double exceeds nine.

use vstd::prelude::*;

verus! {

/// A decimal digit character.
pub open spec fn is_digit_char(c: char) -> bool {
    ('0' as u32) <= (c as u32) && (c as u32) <= ('9' as u32)
}

/// The numeric value of a digit character.
pub open spec fn digit_val(c: char) -> int {
    (c as u32) - ('0' as u32)
}

/// Every character of the sequence is a decimal digit.
pub open spec fn all_digits(s: Seq<char>) -> bool {
    forall|i: int| 0 <= i < s.len() ==> is_digit_char(#[trigger] s[i])
}

/// The weight applied at even positions: the digit is doubled, and nine is
/// subtracted when the double exceeds nine.
pub open spec fn double_reduce(d: int) -> int {
    if 2 * d <= 9 {
        2 * d
    } else {
        2 * d - 9
    }
}

/// What one character adds to the sum, by the parity of its position.
pub open spec fn luhn_contribution(c: char, odd_position: bool) -> int {
    if odd_position {
        digit_val(c)
    } else {
        double_reduce(digit_val(c))
    }
}

/// The weighted checksum of a digit string. The rightmost character has
/// position one, so the position of `s[i]` is `s.len() - i`.
pub open spec fn luhn_sum(s: Seq<char>) -> int
    decreases s.len(),
{
    if s.len() == 0 {
        0
    } else {
        luhn_contribution(s[0], s.len() % 2 == 1) + luhn_sum(s.subrange(1, s.len() as int))
    }
}

/// A digit string passes the checksum exactly when its weighted sum is
/// divisible by ten. The empty string has sum zero and so passes.
pub open spec fn luhn_valid(s: Seq<char>) -> bool {
    luhn_sum(s) % 10 == 0
}

/// Peeling one character off the front of a suffix of `s` splits off its
/// contribution at its position in `s`.
proof fn lemma_luhn_sum_step(s: Seq<char>, i: int)
    requires
        0 <= i < s.len(),
    ensures
        luhn_sum(s.subrange(i, s.len() as int)) == luhn_contribution(
            s[i],
            (s.len() - i) % 2 == 1,
        ) + luhn_sum(s.subrange(i + 1, s.len() as int)),
{
    let t = s.subrange(i, s.len() as int);
    assert(t[0] == s[i]);
    assert(t.subrange(1, t.len() as int) =~= s.subrange(i + 1, s.len() as int));
}

/// The weighted sum of a digit string as it will stand once one more
/// character is appended after it: the position of `s[i]` becomes
/// `s.len() - i + 1`.
pub open spec fn luhn_sum_shifted(s: Seq<char>) -> int
    decreases s.len(),
{
    if s.len() == 0 {
        0
    } else {
        luhn_contribution(s[0], (s.len() + 1) % 2 == 1) + luhn_sum_shifted(
            s.subrange(1, s.len() as int),
        )
    }
}

/// The check digit of a payload: the value that, appended as the rightmost
/// character, makes the whole string pass the checksum.
pub open spec fn check_digit(s: Seq<char>) -> int {
    (10 - luhn_sum_shifted(s) % 10) % 10
}

/// Appending a character shifts every old position up by one and adds the
/// new character at position one.
proof fn lemma_luhn_sum_push(s: Seq<char>, d: char)
    ensures
        luhn_sum(s.push(d)) == luhn_sum_shifted(s) + digit_val(d),
    decreases s.len(),
{
    let p = s.push(d);
    if s.len() == 0 {
        assert(p[0] == d);
        assert(p.subrange(1, 1) =~= Seq::<char>::empty());
        assert(luhn_sum(p.subrange(1, 1)) == 0);
        assert(luhn_sum(p) == luhn_contribution(d, true));
    } else {
        let t = s.subrange(1, s.len() as int);
        lemma_luhn_sum_push(t, d);
        assert(p.subrange(1, p.len() as int) =~= t.push(d));
        assert(p[0] == s[0]);
        assert(luhn_sum(p) == luhn_contribution(p[0], p.len() % 2 == 1) + luhn_sum(
            p.subrange(1, p.len() as int),
        ));
        assert(luhn_sum_shifted(s) == luhn_contribution(s[0], (s.len() + 1) % 2 == 1)
            + luhn_sum_shifted(t));
    }
}

/// The round trip of check-digit generation: appending the check digit
/// freshly computed for a digit string yields a string that the checksum
/// engine accepts.
pub proof fn lemma_append_check_digit(s: Seq<char>, d: char)
    requires
        all_digits(s),
        is_digit_char(d),
        digit_val(d) == check_digit(s),
    ensures
        luhn_valid(s.push(d)),
{
    lemma_luhn_sum_push(s, d);
    let m = luhn_sum_shifted(s);
    let r = m % 10;
    vstd::arithmetic::div_mod::lemma_fundamental_div_mod(m, 10);
    assert(m == 10 * (m / 10) + r);
    if r == 0 {
        assert(luhn_sum(s.push(d)) == 10 * (m / 10));
        assert((10 * (m / 10)) % 10 == 0) by (nonlinear_arith);
    } else {
        assert(digit_val(d) == 10 - r);
        assert(luhn_sum(s.push(d)) == 10 * (m / 10) + 10);
        assert((10 * (m / 10) + 10) % 10 == 0) by (nonlinear_arith);
    }
}

/// Decides whether a digit string passes the checksum, walking it from the
/// rightmost character leftwards.
pub fn valid(number: &str) -> (r: bool)
    requires
        all_digits(number@),
    ensures
        r == luhn_valid(number@),
{
    let n = number.unicode_len();
    let mut i: usize = n;
    let mut checksum: u128 = 0;
    while i > 0
        invariant
            i <= n,
            n == number@.len(),
            all_digits(number@),
            checksum == luhn_sum(number@.subrange(i as int, n as int)),
            checksum <= 9 * ((n - i) as int),
        decreases i,
    {
        i = i - 1;
        let c = number.get_char(i);
        let position = n - i;
        let modifier = if position % 2 == 1 {
            checksum_modifier_odd(c)
        } else {
            checksum_modifier_even(c)
        };
        proof {
            lemma_luhn_sum_step(number@, i as int);
        }
        checksum = checksum + modifier as u128;
    }
    assert(number@.subrange(0, n as int) =~= number@);
    checksum % 10 == 0
}

/// A digit at an odd position counts as its plain value.
fn checksum_modifier_odd(c: char) -> (n: u32)
    requires
        is_digit_char(c),
    ensures
        n == luhn_contribution(c, true),
        n <= 9,
{
    numeric_char_to_u32(c)
}

/// A digit at an even position is doubled, reduced by nine when the double
/// exceeds nine.
fn checksum_modifier_even(c: char) -> (n: u32)
    requires
        is_digit_char(c),
    ensures
        n == luhn_contribution(c, false),
        n <= 9,
{
    let n = numeric_char_to_u32(c);
    let d = n * 2;
    if d <= 9 {
        d
    } else {
        d - 9
    }
}

/// The numeric value of a digit character.
fn numeric_char_to_u32(c: char) -> (n: u32)
    requires
        is_digit_char(c),
    ensures
        n == digit_val(c),
{
    (c as u32) - ('0' as u32)
}

} // verus!
