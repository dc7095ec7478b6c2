//! Rendering of numbers as text and joining of identifier parts.
use vstd::prelude::*;

verus! {

/// The sixteen digit characters, upper-case letters above nine.
pub open spec fn digit_chars() -> Seq<char> {
    seq!['0', '1', '2', '3', '4', '5', '6', '7', '8', '9', 'A', 'B', 'C', 'D', 'E', 'F']
}

/// Decimal rendering of `n`, most significant digit first, with no leading
/// zeros (zero itself is `0`).
pub open spec fn decimal(n: nat) -> Seq<char>
    decreases n,
{
    if n < 10 {
        seq![digit_chars()[n as int]]
    } else {
        decimal(n / 10).push(digit_chars()[(n % 10) as int])
    }
}

/// Upper-case hexadecimal rendering of `n`, without prefix and with no
/// leading zeros.
pub open spec fn upper_hex(n: nat) -> Seq<char>
    decreases n,
{
    if n < 16 {
        seq![digit_chars()[n as int]]
    } else {
        upper_hex(n / 16).push(digit_chars()[(n % 16) as int])
    }
}

/// The one-character string for digit `d`.
fn digit_str(d: u64) -> (r: &'static str)
    requires
        d < 16,
    ensures
        r@ == seq![digit_chars()[d as int]],
{
    let all = "0123456789ABCDEF";
    proof {
        reveal_strlit("0123456789ABCDEF");
        assert(all@ =~= digit_chars());
    }
    all.substring_ascii(d as usize, d as usize + 1)
}

/// Appends the decimal digits of `n` to `s`.
fn push_decimal(s: &mut String, n: u64)
    ensures
        final(s)@ == old(s)@ + decimal(n as nat),
    decreases n,
{
    if n >= 10 {
        push_decimal(s, n / 10);
    }
    let d = digit_str(n % 10);
    s.append(d);
    assert(s@ =~= old(s)@ + decimal(n as nat));
}

/// Appends the upper-case hexadecimal digits of `n` to `s`.
fn push_hex(s: &mut String, n: u64)
    ensures
        final(s)@ == old(s)@ + upper_hex(n as nat),
    decreases n,
{
    if n >= 16 {
        push_hex(s, n / 16);
    }
    let d = digit_str(n % 16);
    s.append(d);
    assert(s@ =~= old(s)@ + upper_hex(n as nat));
}

/// Decimal rendering of `n`.
pub fn decimal_string(n: u64) -> (r: String)
    ensures
        r@ == decimal(n as nat),
{
    let mut s = String::new();
    push_decimal(&mut s, n);
    assert(s@ =~= decimal(n as nat));
    s
}

/// Upper-case hexadecimal rendering of `n` with a `0x` prefix.
pub fn hex_quantity(n: u64) -> (r: String)
    ensures
        r@ == seq!['0', 'x'] + upper_hex(n as nat),
{
    let mut s = String::from_str("0x");
    proof {
        reveal_strlit("0x");
    }
    push_hex(&mut s, n);
    s
}

} // verus!
