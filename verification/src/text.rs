//! Building of text: characters, and numbers in decimal and hexadecimal.
use vstd::prelude::*;

verus! {

/// Appends one character with `String::push`.
#[verifier::external_body]
pub(crate) fn push_char(text: &mut String, c: char)
    ensures
        final(text)@ == old(text)@.push(c),
{
    text.push(c)
}

/// The character of a digit below 16: `0` to `9`, then `a` to `f`.
pub open spec fn digit_char(digit: nat) -> char {
    if digit < 10 {
        (48 + digit) as char
    } else {
        (87 + digit) as char
    }
}

/// `n` in decimal: most significant digit first, without padding; zero is
/// the single digit `0`.
pub open spec fn decimal(n: nat) -> Seq<char>
    decreases n,
{
    if n < 10 {
        seq![digit_char(n)]
    } else {
        decimal(n / 10).push(digit_char(n % 10))
    }
}

/// `n` in lower-case hexadecimal: most significant digit first, without
/// padding; zero is the single digit `0`.
pub open spec fn hex_digits(n: nat) -> Seq<char>
    decreases n,
{
    if n < 16 {
        seq![digit_char(n)]
    } else {
        hex_digits(n / 16).push(digit_char(n % 16))
    }
}

/// `n` in lower-case hexadecimal with the prefix `0x`.
pub open spec fn hex_literal(n: nat) -> Seq<char> {
    seq!['0', 'x'] + hex_digits(n)
}

/// The digits of `n` in `base`, which is 10 or 16.
pub open spec fn numeral(n: nat, base: nat) -> Seq<char> {
    if base == 16 {
        hex_digits(n)
    } else {
        decimal(n)
    }
}

/// `n` in decimal, with a minus sign where it is negative.
pub open spec fn signed_decimal(n: int) -> Seq<char> {
    if n < 0 {
        seq!['-'] + decimal((-n) as nat)
    } else {
        decimal(n as nat)
    }
}

/// The character of a digit below 16.
fn digit(value: u8) -> (c: char)
    requires
        value < 16,
    ensures
        c == digit_char(value as nat),
{
    if value < 10 {
        (48 + value) as char
    } else {
        (87 + value) as char
    }
}

/// Appends the digits of `n` in `base`, which is 10 or 16.
pub(crate) fn push_numeral(text: &mut String, n: u128, base: u8)
    requires
        base == 10 || base == 16,
    ensures
        final(text)@ == old(text)@ + numeral(n as nat, base as nat),
{
    let wide: u128 = base as u128;
    let mut low_first: Vec<char> = Vec::new();
    let mut rest: u128 = n;
    while rest >= wide
        invariant
            wide == base,
            base == 10 || base == 16,
            numeral(n as nat, base as nat) == numeral(rest as nat, base as nat)
                + low_first@.reverse(),
        decreases rest,
    {
        let ghost before = low_first@;
        low_first.push(digit((rest % wide) as u8));
        proof {
            let d = digit_char((rest % wide) as nat);
            assert(low_first@.reverse() =~= seq![d] + before.reverse());
            assert(numeral(rest as nat, base as nat) + before.reverse() =~= numeral(
                (rest / wide) as nat,
                base as nat,
            ) + (seq![d] + before.reverse()));
        }
        rest = rest / wide;
    }
    push_char(text, digit(rest as u8));
    let mut left: usize = low_first.len();
    while left > 0
        invariant
            left <= low_first.len(),
            text@ == old(text)@ + numeral(rest as nat, base as nat) + low_first@.reverse().take(
                low_first.len() - left,
            ),
            rest < base,
            base == 10 || base == 16,
        decreases left,
    {
        left -= 1;
        push_char(text, low_first[left]);
        proof {
            let back = low_first@.reverse();
            let k = low_first.len() - left - 1;
            assert(back.take(k + 1) =~= back.take(k).push(back[k]));
        }
    }
    proof {
        let back = low_first@.reverse();
        assert(back.take(low_first.len() as int) =~= back);
        assert(old(text)@ + numeral(rest as nat, base as nat) + back =~= old(text)@ + (numeral(
            rest as nat,
            base as nat,
        ) + back));
    }
}

/// Appends `n` in decimal.
pub fn push_decimal(text: &mut String, n: u128)
    ensures
        final(text)@ == old(text)@ + decimal(n as nat),
{
    push_numeral(text, n, 10)
}

/// Appends `n` in lower-case hexadecimal with the prefix `0x`.
pub fn push_hex(text: &mut String, n: u64)
    ensures
        final(text)@ == old(text)@ + hex_literal(n as nat),
{
    push_char(text, '0');
    push_char(text, 'x');
    push_numeral(text, n as u128, 16);
    assert(text@ =~= old(text)@ + hex_literal(n as nat));
}

/// Appends `n` in decimal, with a minus sign where it is negative.
pub fn push_signed_decimal(text: &mut String, n: i64)
    ensures
        final(text)@ == old(text)@ + signed_decimal(n as int),
{
    if n < 0 {
        push_char(text, '-');
        let magnitude: i128 = 0 - (n as i128);
        push_numeral(text, magnitude as u128, 10);
        assert(text@ =~= old(text)@ + signed_decimal(n as int));
    } else {
        push_numeral(text, n as u128, 10);
    }
}

/// The characters of `text`, one by one.
pub fn chars_of(text: &str) -> (r: Vec<char>)
    ensures
        r@ == text@,
{
    let mut r: Vec<char> = Vec::new();
    for c in it: text.chars()
        invariant
            it.seq() == text@,
            r@ == text@.take(it.index() as int),
    {
        r.push(c);
        assert(text@.take(it.index() + 1) =~= text@.take(it.index() as int).push(c));
    }
    assert(text@.take(text@.len() as int) =~= text@);
    r
}

/// Whether two texts hold the same characters.
pub fn text_eq(left: &str, right: &str) -> (r: bool)
    ensures
        r == (left@ == right@),
{
    let a = chars_of(left);
    let b = chars_of(right);
    if a.len() != b.len() {
        return false;
    }
    let mut i: usize = 0;
    while i < a.len()
        invariant
            i <= a.len(),
            a.len() == b.len(),
            a@ == left@,
            b@ == right@,
            forall|j: int| 0 <= j < i ==> a[j] == b[j],
        decreases a.len() - i,
    {
        if a[i] != b[i] {
            return false;
        }
        i += 1;
    }
    assert(left@ =~= right@);
    true
}

} // verus!
