//! Verified text building: decimal rendering of integers and ASCII
//! upper-casing, used by the snapshot's derived brand field and by the
//! streaming wire format.

use vstd::prelude::*;

verus! {

/// Relies on `String::push`: appends the given character to the end of the string.
#[verifier::external_body]
fn push_char(s: &mut String, c: char)
    ensures
        final(s)@ == old(s)@.push(c),
{
    s.push(c)
}

/// The decimal digit character for `d` (meaningful for `d < 10`).
pub open spec fn spec_digit_char(d: nat) -> char
    recommends
        d < 10,
{
    (48 + d) as char
}

/// The decimal rendering of `n`, most significant digit first, no sign,
/// no leading zeros (a single `'0'` for zero).
pub open spec fn spec_decimal(n: nat) -> Seq<char>
    decreases n,
{
    if n < 10 {
        seq![spec_digit_char(n)]
    } else {
        spec_decimal(n / 10).push(spec_digit_char(n % 10))
    }
}

/// Append the decimal rendering of `n` to `out`.
pub fn append_decimal(out: &mut String, n: u64)
    ensures
        final(out)@ == old(out)@ + spec_decimal(n as nat),
    decreases n,
{
    if n < 10 {
        let c = (48 + n as u8) as char;
        assert(c == spec_digit_char(n as nat));
        push_char(out, c);
        assert(final(out)@ =~= old(out)@ + spec_decimal(n as nat));
    } else {
        append_decimal(out, n / 10);
        let c = (48 + (n % 10) as u8) as char;
        assert(c == spec_digit_char((n % 10) as nat));
        push_char(out, c);
        assert(final(out)@ =~= old(out)@ + spec_decimal(n as nat));
    }
}

/// The decimal rendering of `n` as a fresh string.
pub fn decimal_string(n: u64) -> (r: String)
    ensures
        r@ == spec_decimal(n as nat),
{
    let mut out = String::new();
    append_decimal(&mut out, n);
    proof {
        assert(out@ =~= spec_decimal(n as nat));
    }
    out
}

/// `c` mapped to upper case if it is an ASCII lower-case letter, else `c`.
pub open spec fn spec_upper_char(c: char) -> char {
    if 97 <= c as u32 <= 122 {
        ((c as u32) - 32) as char
    } else {
        c
    }
}

/// `s` with every ASCII lower-case letter mapped to upper case.
pub open spec fn spec_upper(s: Seq<char>) -> Seq<char> {
    s.map_values(|c: char| spec_upper_char(c))
}

/// Upper-case every ASCII lower-case letter of `s`.
pub fn to_ascii_upper(s: &str) -> (r: String)
    ensures
        r@ == spec_upper(s@),
{
    let n = s.unicode_len();
    let mut out = String::new();
    let mut i: usize = 0;
    while i < n
        invariant
            n == s@.len(),
            i <= n,
            out@ == spec_upper(s@.subrange(0, i as int)),
        decreases n - i,
    {
        let c = s.get_char(i);
        let u = c as u32;
        let up = if 97 <= u && u <= 122 {
            proof {
                vstd::utf8::char_is_scalar(c);
            }
            ((u - 32) as u8) as char
        } else {
            c
        };
        assert(up == spec_upper_char(s@[i as int]));
        push_char(&mut out, up);
        proof {
            assert(out@ =~= spec_upper(s@.subrange(0, i + 1 as int)));
        }
        i += 1;
    }
    proof {
        assert(s@.subrange(0, n as int) =~= s@);
    }
    out
}

} // verus!
