//! Small verified string helpers: decimal rendering of counters and sizes,
//! and the one trusted conversion from a character vector to a `String`.

use vstd::prelude::*;

verus! {

/// The decimal digit character for `d` (0 through 9).
pub open spec fn spec_digit_char(d: int) -> char
    recommends
        0 <= d <= 9,
{
    ((48 + d) as u8) as char
}

/// The decimal rendering of `n`, most significant digit first.
pub open spec fn spec_u64_digits(n: int) -> Seq<char>
    recommends
        n >= 0,
    decreases n,
{
    if n < 10 {
        seq![spec_digit_char(n)]
    } else {
        spec_u64_digits(n / 10).push(spec_digit_char(n % 10))
    }
}

/// Builds a `String` from its characters.
///
/// Relies on `String`'s `FromIterator` over `char`: collecting characters
/// yields the string of exactly those characters in order.
#[verifier::external_body]
pub fn chars_to_string(chars: &Vec<char>) -> (s: String)
    ensures
        s@ == chars@,
{
    chars.iter().collect()
}

/// Render `n` in decimal.
pub fn u64_to_string(n: u64) -> (s: String)
    ensures
        s@ == spec_u64_digits(n as int),
{
    let mut rev: Vec<char> = Vec::new();
    let mut m: u64 = n;
    loop
        invariant_except_break
            rev@.len() > 0 ==> spec_u64_digits(n as int) == spec_u64_digits(m as int)
                + rev@.reverse(),
            rev@.len() == 0 ==> m == n,
        ensures
            spec_u64_digits(n as int) == rev@.reverse(),
        decreases m,
    {
        let ghost m0 = m as int;
        let d: u64 = m % 10;
        let digit: char = (48 + d as u8) as char;
        let ghost prev_rev = rev@;
        rev.push(digit);
        m = m / 10;
        proof {
            assert(rev@.reverse() =~= seq![digit] + prev_rev.reverse());
            if prev_rev.len() == 0 {
                assert(spec_u64_digits(n as int) =~= spec_u64_digits(m0) + prev_rev.reverse());
            }
            assert(spec_u64_digits(n as int) == spec_u64_digits(m0) + prev_rev.reverse());
            if m0 >= 10 {
                assert(spec_u64_digits(m0) == spec_u64_digits(m0 / 10).push(
                    spec_digit_char(m0 % 10)));
                assert(spec_u64_digits(m as int) + rev@.reverse() =~= spec_u64_digits(m0)
                    + prev_rev.reverse());
            } else {
                assert(spec_u64_digits(m0) =~= seq![spec_digit_char(m0)]);
                assert(rev@.reverse() =~= spec_u64_digits(m0) + prev_rev.reverse());
            }
        }
        if m == 0 {
            break;
        }
    }
    let mut out: Vec<char> = Vec::new();
    let mut i: usize = rev.len();
    while i > 0
        invariant
            i <= rev@.len(),
            out@.len() == rev@.len() - i,
            forall|k: int| 0 <= k < out@.len() ==> out@[k] == rev@[rev@.len() - 1 - k],
        decreases i,
    {
        i = i - 1;
        out.push(rev[i]);
    }
    proof {
        assert(out@ =~= rev@.reverse());
    }
    chars_to_string(&out)
}

} // verus!
