//! Text building: appending characters and decimal numbers to strings.
use vstd::prelude::*;

verus! {

/// The character of a decimal digit.
pub open spec fn digit_char(d: int) -> char {
    if d == 0 { '0' } else if d == 1 { '1' } else if d == 2 { '2' } else if d == 3 { '3' }
    else if d == 4 { '4' } else if d == 5 { '5' } else if d == 6 { '6' } else if d == 7 { '7' }
    else if d == 8 { '8' } else { '9' }
}

/// Decimal digits of `n`, most significant first, without leading zeros.
pub open spec fn decimal(n: nat) -> Seq<char>
    decreases n,
{
    if n < 10 { seq![digit_char(n as int)] } else { decimal(n / 10).push(digit_char((n % 10) as int)) }
}

/// Decimal digits of `n`, left-padded with zeros to at least `width` characters.
pub open spec fn zero_padded(n: nat, width: nat) -> Seq<char> {
    let d = decimal(n);
    if d.len() < width { Seq::new((width - d.len()) as nat, |i: int| '0') + d } else { d }
}

/// Appends one character to a string: `String::push`, which std documents as
/// appending the given `char` to the end of the string.
#[verifier::external_body]
pub(crate) fn push_char(s: &mut String, c: char)
    ensures
        final(s)@ == old(s)@.push(c),
{
    s.push(c);
}

pub fn digit(d: u64) -> (c: char)
    requires
        d < 10,
    ensures
        c == digit_char(d as int),
{
    match d {
        0 => '0',
        1 => '1',
        2 => '2',
        3 => '3',
        4 => '4',
        5 => '5',
        6 => '6',
        7 => '7',
        8 => '8',
        _ => '9',
    }
}

/// Number of decimal digits of `n`.
pub fn decimal_len(n: u64) -> (len: usize)
    ensures
        len == decimal(n as nat).len(),
        len <= 20,
    decreases n,
{
    if n < 10 {
        1
    } else {
        proof {
            lemma_decimal_len_bound(n as nat);
        }
        decimal_len(n / 10) + 1
    }
}

spec fn pow10(k: nat) -> nat
    decreases k,
{
    if k == 0 { 1 } else { 10 * pow10((k - 1) as nat) }
}

/// A number has at least one decimal digit, and a `u64` has at most twenty.
pub proof fn lemma_decimal_len_bound(n: nat)
    ensures
        decimal(n).len() >= 1,
        n <= u64::MAX ==> decimal(n).len() <= 20,
{
    lemma_decimal_len_below(n, 20);
    reveal_with_fuel(pow10, 21);
    assert(pow10(20) == 100000000000000000000nat);
}

proof fn lemma_decimal_len_below(n: nat, k: nat)
    ensures
        decimal(n).len() >= 1,
        k >= 1 && n < pow10(k) ==> decimal(n).len() <= k,
    decreases n,
{
    if n >= 10 {
        lemma_decimal_len_below(n / 10, (k - 1) as nat);
        if k >= 1 && n < pow10(k) {
            let p = pow10((k - 1) as nat);
            assert(n / 10 < p) by (nonlinear_arith)
                requires n < 10 * p;
            if k == 1 {
                assert(pow10(1) == 10) by { reveal_with_fuel(pow10, 2); }
            }
        }
    }
}

/// Appends the decimal digits of `n`.
pub fn push_decimal(s: &mut String, n: u64)
    ensures
        final(s)@ == old(s)@ + decimal(n as nat),
    decreases n,
{
    if n >= 10 {
        push_decimal(s, n / 10);
    }
    push_char(s, digit(n % 10));
    proof {
        if n >= 10 {
            assert(decimal(n as nat) == decimal((n / 10) as nat).push(digit_char((n % 10) as int)));
        }
    }
    assert(s@ =~= old(s)@ + decimal(n as nat));
}

/// Appends `n` in decimal, left-padded with zeros to `width` characters.
pub fn push_zero_padded(s: &mut String, n: u64, width: usize)
    ensures
        final(s)@ == old(s)@ + zero_padded(n as nat, width as nat),
{
    let len = decimal_len(n);
    let ghost start = s@;
    if len < width {
        let mut i: usize = 0;
        while i < width - len
            invariant
                len < width,
                i <= width - len,
                s@ == start + Seq::new(i as nat, |k: int| '0'),
            decreases width - len - i,
        {
            push_char(s, '0');
            i = i + 1;
            assert(s@ =~= start + Seq::new(i as nat, |k: int| '0'));
        }
    }
    let ghost mid = s@;
    push_decimal(s, n);
    assert(s@ =~= start + zero_padded(n as nat, width as nat));
}

/// `x` in decimal with an explicit sign: `+` for zero and positive values.
pub open spec fn signed_decimal(x: int) -> Seq<char> {
    if x >= 0 { seq!['+'] + decimal(x as nat) } else { seq!['-'] + decimal((-x) as nat) }
}

/// Formats `x` with an explicit sign, as `format!("{x:+}")` does.
pub fn format_signed(x: i32) -> (s: String)
    ensures
        s@ == signed_decimal(x as int),
{
    let mut s = String::new();
    if x >= 0 {
        push_char(&mut s, '+');
        push_decimal(&mut s, x as u64);
    } else {
        push_char(&mut s, '-');
        let magnitude: u64 = (0i64 - (x as i64)) as u64;
        push_decimal(&mut s, magnitude);
    }
    s
}

/// `x` in decimal, with a leading `-` when negative.
pub open spec fn int_decimal(x: int) -> Seq<char> {
    if x >= 0 { decimal(x as nat) } else { seq!['-'] + decimal((-x) as nat) }
}

/// Appends `x` in decimal, with a leading `-` when negative (as `format!("{x}")`).
pub fn push_int_decimal(s: &mut String, x: i64)
    ensures
        final(s)@ == old(s)@ + int_decimal(x as int),
{
    if x >= 0 {
        push_decimal(s, x as u64);
    } else {
        push_char(s, '-');
        let magnitude: u64 = if x == i64::MIN { 9223372036854775808u64 } else { (-x) as u64 };
        push_decimal(s, magnitude);
        assert(s@ =~= old(s)@ + int_decimal(x as int));
    }
}

} // verus!
