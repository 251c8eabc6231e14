//! Text building blocks: decimal numerals and character access.

use vstd::prelude::*;
use vstd::string::*;

verus! {

/// The ASCII digit that stands for `d`, for `d` below ten.
pub open spec fn digit_char(d: nat) -> char {
    ((48 + d) as u8) as char
}

/// The decimal numeral of `n`, without sign or leading zeros.
pub open spec fn decimal(n: nat) -> Seq<char>
    decreases n,
{
    if n < 10 {
        seq![digit_char(n)]
    } else {
        decimal(n / 10).push(digit_char(n % 10))
    }
}

/// Appends one character to `s`.
///
/// Trusted: calls `String::push` of the standard library, which is documented
/// to append the given character to the end of the string.
#[verifier::external_body]
pub(crate) fn push_char(s: &mut String, c: char)
    ensures
        final(s)@ == old(s)@.push(c),
{
    s.push(c);
}

/// Appends the decimal numeral of `n` to `out`.
pub fn push_decimal(out: &mut String, n: u64)
    ensures
        final(out)@ == old(out)@ + decimal(n as nat),
    decreases n,
{
    if n >= 10 {
        push_decimal(out, n / 10);
    }
    let d: u8 = (n % 10) as u8;
    push_char(out, (48u8 + d) as char);
    proof {
        assert(out@ =~= old(out)@ + decimal(n as nat));
    }
}

/// The characters of `text`, in order.
pub fn chars_of(text: &str) -> (v: Vec<char>)
    ensures
        v@ == text@,
{
    let n: usize = text.unicode_len();
    let mut v: Vec<char> = Vec::new();
    let mut i: usize = 0;
    while i < n
        invariant
            n == text@.len(),
            i <= n,
            v@ == text@.take(i as int),
        decreases n - i,
    {
        v.push(text.get_char(i));
        proof {
            assert(text@.take(i as int).push(text@[i as int]) =~= text@.take(i + 1));
        }
        i += 1;
    }
    proof {
        assert(text@.take(n as int) =~= text@);
    }
    v
}

} // verus!
