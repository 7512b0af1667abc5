//! Text building blocks shared by the comparator and the Markdown renderer:
//! decimal rendering of integers and appending to a `String`.

use vstd::prelude::*;
use vstd::string::StringExecFns;

verus! {

/// The ASCII digit for `d`, where `0 <= d <= 9`.
pub open spec fn digit_char(d: int) -> char {
    (48 + d) as char
}

/// Decimal rendering of a natural number, most significant digit first,
/// without leading zeros ("0" for zero).
pub open spec fn dec(n: nat) -> Seq<char>
    decreases n,
{
    if n < 10 {
        seq![digit_char(n as int)]
    } else {
        dec(n / 10).push(digit_char((n % 10) as int))
    }
}

/// Rendering of a signed integer with an explicit sign, the way `{:+}`
/// prints it: `+` for zero and positive numbers, `-` for negative ones.
pub open spec fn signed_dec(x: int) -> Seq<char> {
    if x >= 0 {
        seq!['+'] + dec(x as nat)
    } else {
        seq!['-'] + dec((-x) as nat)
    }
}

/// Appends one character to a string.
#[verifier::external_body]
pub fn push_char(s: &mut String, c: char)
    ensures
        final(s)@ == old(s)@.push(c),
{
    s.push(c);
}

/// Appends a string slice to a string.
pub fn push_str(s: &mut String, t: &str)
    ensures
        final(s)@ == old(s)@ + t@,
{
    s.append(t);
}

/// Appends the decimal rendering of `n`.
pub fn push_u64(s: &mut String, n: u64)
    ensures
        final(s)@ == old(s)@ + dec(n as nat),
    decreases n,
{
    if n >= 10 {
        push_u64(s, n / 10);
    }
    let d: u8 = (n % 10) as u8;
    push_char(s, (48u8 + d) as char);
    proof {
        assert(old(s)@ + dec(n as nat) =~= (old(s)@ + (if n >= 10 { dec((n / 10) as nat) } else { Seq::empty() })).push(digit_char((n % 10) as int)));
    }
}

/// Appends the decimal rendering of a `usize`.
pub fn push_usize(s: &mut String, n: usize)
    ensures
        final(s)@ == old(s)@ + dec(n as nat),
{
    push_u64(s, n as u64);
}

/// Appends `x` with an explicit sign, as `{:+}` formats it.
pub fn push_signed(s: &mut String, x: i64)
    ensures
        final(s)@ == old(s)@ + signed_dec(x as int),
{
    if x >= 0 {
        push_char(s, '+');
        push_u64(s, x as u64);
        assert(final(s)@ =~= old(s)@ + signed_dec(x as int)) by {
            assert(signed_dec(x as int) =~= seq!['+'] + dec(x as nat));
        }
    } else {
        push_char(s, '-');
        let magnitude: u64 = ((-(x + 1)) as u64) + 1;
        push_u64(s, magnitude);
        assert(final(s)@ =~= old(s)@ + signed_dec(x as int));
    }
}

} // verus!
