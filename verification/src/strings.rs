//! Verified string-building utilities: single-character append, decimal
//! rendering of integers, placeholder substitution, and percent-encoding.
//! Every endpoint URL this library constructs is assembled through these.

use vstd::prelude::*;
use vstd::string::*;

verus! {

/// Relies on std's `String::push`: appends the given character to the end
/// of the string.
#[verifier::external_body]
pub(crate) fn push_char(s: &mut String, c: char)
    ensures
        final(s)@ == old(s)@ + seq![c],
{
    s.push(c);
}

/// The character for a single decimal digit.
pub open spec fn spec_digit(d: nat) -> char {
    if d == 0 {
        '0'
    } else if d == 1 {
        '1'
    } else if d == 2 {
        '2'
    } else if d == 3 {
        '3'
    } else if d == 4 {
        '4'
    } else if d == 5 {
        '5'
    } else if d == 6 {
        '6'
    } else if d == 7 {
        '7'
    } else if d == 8 {
        '8'
    } else {
        '9'
    }
}

/// The decimal rendering of a natural number, most significant digit first,
/// with no leading zeroes (a single `'0'` for zero).
pub open spec fn spec_dec(n: nat) -> Seq<char>
    decreases n,
{
    if n < 10 {
        seq![spec_digit(n)]
    } else {
        spec_dec(n / 10).push(spec_digit(n % 10))
    }
}

fn digit_char(d: u64) -> (c: char)
    requires
        d < 10,
    ensures
        c == spec_digit(d as nat),
{
    if d == 0 {
        '0'
    } else if d == 1 {
        '1'
    } else if d == 2 {
        '2'
    } else if d == 3 {
        '3'
    } else if d == 4 {
        '4'
    } else if d == 5 {
        '5'
    } else if d == 6 {
        '6'
    } else if d == 7 {
        '7'
    } else if d == 8 {
        '8'
    } else {
        '9'
    }
}

/// Renders an unsigned integer in decimal.
pub fn u64_to_dec(n: u64) -> (r: String)
    ensures
        r@ == spec_dec(n as nat),
    decreases n,
{
    if n < 10 {
        let mut s = String::new();
        let c = digit_char(n);
        push_char(&mut s, c);
        proof {
            assert(s@ =~= seq![spec_digit(n as nat)]);
        }
        s
    } else {
        let mut s = u64_to_dec(n / 10);
        let c = digit_char(n % 10);
        push_char(&mut s, c);
        proof {
            assert(s@ =~= spec_dec((n / 10) as nat).push(spec_digit((n % 10) as nat)));
        }
        s
    }
}

/// Whether `pat` occurs in `s` at character offset `i`.
fn str_matches_at(s: &str, i: usize, pat: &str) -> (r: bool)
    requires
        i as int + pat@.len() as int <= s@.len() as int,
        s@.len() <= usize::MAX as int,
    ensures
        r == (s@.subrange(i as int, i as int + pat@.len() as int) == pat@),
{
    let p = pat.unicode_len();
    let mut j: usize = 0;
    while j < p
        invariant
            p == pat@.len(),
            i as int + p as int <= s@.len() as int,
            s@.len() <= usize::MAX as int,
            j <= p,
            forall|k: int| 0 <= k < j ==> s@[i + k] == pat@[k],
        decreases p - j,
    {
        if s.get_char(i + j) != pat.get_char(j) {
            proof {
                assert(s@.subrange(i as int, i as int + pat@.len() as int)[j as int] == s@[i + j]);
            }
            return false;
        }
        j = j + 1;
    }
    proof {
        assert(s@.subrange(i as int, i as int + pat@.len() as int) =~= pat@);
    }
    true
}

/// Left-to-right replacement of every non-overlapping occurrence of `pat`
/// in `s` by `val`; an empty pattern leaves `s` unchanged.
pub open spec fn spec_replace(s: Seq<char>, pat: Seq<char>, val: Seq<char>) -> Seq<char>
    decreases s.len(),
{
    if pat.len() == 0 || s.len() < pat.len() {
        s
    } else if s.take(pat.len() as int) == pat {
        val + spec_replace(s.skip(pat.len() as int), pat, val)
    } else {
        seq![s[0]] + spec_replace(s.skip(1), pat, val)
    }
}

/// Replaces every non-overlapping occurrence of `pat` in `s` by `val`,
/// scanning left to right.
pub fn replace_all(s: &str, pat: &str, val: &str) -> (r: String)
    ensures
        r@ == spec_replace(s@, pat@, val@),
{
    let n = s.unicode_len();
    let p = pat.unicode_len();
    if p == 0 {
        return s.to_owned();
    }
    let mut out = String::new();
    let mut i: usize = 0;
    proof {
        assert(s@.skip(0) =~= s@);
        assert(out@ + spec_replace(s@, pat@, val@) =~= spec_replace(s@, pat@, val@));
    }
    while i < n
        invariant
            n == s@.len(),
            p == pat@.len(),
            1 <= p,
            i <= n,
            spec_replace(s@, pat@, val@) == out@ + spec_replace(s@.skip(i as int), pat@, val@),
        decreases n - i,
    {
        let ghost rem = s@.skip(i as int);
        let ghost out0 = out@;
        if p <= n - i && str_matches_at(s, i, pat) {
            out.append(val);
            i = i + p;
            proof {
                assert(rem.take(p as int) =~= s@.subrange(i - p, i as int));
                assert(rem.skip(p as int) =~= s@.skip(i as int));
                assert(spec_replace(rem, pat@, val@) == val@ + spec_replace(
                    s@.skip(i as int),
                    pat@,
                    val@,
                ));
                assert(out0 + (val@ + spec_replace(s@.skip(i as int), pat@, val@)) =~= (out0
                    + val@) + spec_replace(s@.skip(i as int), pat@, val@));
            }
        } else {
            let c = s.get_char(i);
            push_char(&mut out, c);
            i = i + 1;
            proof {
                assert(rem[0] == s@[i - 1]);
                assert(rem.skip(1) =~= s@.skip(i as int));
                if p <= rem.len() {
                    assert(rem.take(p as int) =~= s@.subrange(i - 1, i - 1 + p as int));
                    assert(rem.take(p as int) != pat@);
                    assert(spec_replace(rem, pat@, val@) == seq![rem[0]] + spec_replace(
                        rem.skip(1),
                        pat@,
                        val@,
                    ));
                } else {
                    assert(spec_replace(rem, pat@, val@) == rem);
                    assert(rem.skip(1).len() < p);
                    assert(spec_replace(rem.skip(1), pat@, val@) == rem.skip(1));
                    assert(rem =~= seq![rem[0]] + rem.skip(1));
                }
                assert(out0 + (seq![rem[0]] + spec_replace(s@.skip(i as int), pat@, val@)) =~= (
                out0 + seq![rem[0]]) + spec_replace(s@.skip(i as int), pat@, val@));
            }
        }
    }
    proof {
        assert(s@.skip(n as int) =~= Seq::<char>::empty());
        assert(out@ + spec_replace(Seq::<char>::empty(), pat@, val@) =~= out@);
    }
    out
}

/// Characters that percent-encoding leaves as they are (the RFC 3986
/// unreserved set).
pub open spec fn spec_is_unreserved(c: char) -> bool {
    ('a' <= c && c <= 'z') || ('A' <= c && c <= 'Z') || ('0' <= c && c <= '9') || c == '-' || c
        == '.' || c == '_' || c == '~'
}

/// The upper-case hexadecimal digit for a value below sixteen.
pub open spec fn spec_hex_upper(d: int) -> char {
    if d == 0 {
        '0'
    } else if d == 1 {
        '1'
    } else if d == 2 {
        '2'
    } else if d == 3 {
        '3'
    } else if d == 4 {
        '4'
    } else if d == 5 {
        '5'
    } else if d == 6 {
        '6'
    } else if d == 7 {
        '7'
    } else if d == 8 {
        '8'
    } else if d == 9 {
        '9'
    } else if d == 10 {
        'A'
    } else if d == 11 {
        'B'
    } else if d == 12 {
        'C'
    } else if d == 13 {
        'D'
    } else if d == 14 {
        'E'
    } else {
        'F'
    }
}

/// The percent-encoding of a single character: unreserved characters stand
/// for themselves, every other code point below 128 becomes a `%XX` triple.
pub open spec fn spec_pct_char(c: char) -> Seq<char> {
    if spec_is_unreserved(c) {
        seq![c]
    } else {
        seq!['%', spec_hex_upper(((c as u32) as int / 16) % 16), spec_hex_upper((c as u32) as int % 16)]
    }
}

/// The percent-encoding of a character sequence.
pub open spec fn spec_pct(s: Seq<char>) -> Seq<char>
    decreases s.len(),
{
    if s.len() == 0 {
        Seq::empty()
    } else {
        spec_pct_char(s[0]) + spec_pct(s.skip(1))
    }
}

fn hex_upper_char(d: u32) -> (c: char)
    requires
        d < 16,
    ensures
        c == spec_hex_upper(d as int),
{
    if d == 0 {
        '0'
    } else if d == 1 {
        '1'
    } else if d == 2 {
        '2'
    } else if d == 3 {
        '3'
    } else if d == 4 {
        '4'
    } else if d == 5 {
        '5'
    } else if d == 6 {
        '6'
    } else if d == 7 {
        '7'
    } else if d == 8 {
        '8'
    } else if d == 9 {
        '9'
    } else if d == 10 {
        'A'
    } else if d == 11 {
        'B'
    } else if d == 12 {
        'C'
    } else if d == 13 {
        'D'
    } else if d == 14 {
        'E'
    } else {
        'F'
    }
}

/// Appends the percent-encoding of `s` to `out`. Only ASCII text has a
/// meaningful encoding here, hence the precondition.
pub(crate) fn append_percent_encoded(out: &mut String, s: &str)
    requires
        is_ascii(s),
    ensures
        final(out)@ == old(out)@ + spec_pct(s@),
{
    let n = s.unicode_len();
    let mut i: usize = 0;
    proof {
        assert(s@.skip(0) =~= s@);
    }
    while i < n
        invariant
            n == s@.len(),
            i <= n,
            out@ + spec_pct(s@.skip(i as int)) == old(out)@ + spec_pct(s@),
        decreases n - i,
    {
        let ghost rem = s@.skip(i as int);
        let ghost out0 = out@;
        let c = s.get_char(i);
        let u = c as u32;
        if (u >= 97 && u <= 122) || (u >= 65 && u <= 90) || (u >= 48 && u <= 57) || u == 45 || u
            == 46 || u == 95 || u == 126 {
            push_char(out, c);
            proof {
                assert(spec_is_unreserved(c));
                assert(spec_pct_char(c) =~= seq![c]);
            }
        } else {
            push_char(out, '%');
            let h = hex_upper_char((u / 16) % 16);
            push_char(out, h);
            let l = hex_upper_char(u % 16);
            push_char(out, l);
            proof {
                assert(!spec_is_unreserved(c));
                assert(((out0 + seq!['%']) + seq![h]) + seq![l] =~= out0 + spec_pct_char(c));
            }
        }
        i = i + 1;
        proof {
            assert(rem[0] == s@[i - 1]);
            assert(rem.skip(1) =~= s@.skip(i as int));
            assert(spec_pct(rem) == spec_pct_char(rem[0]) + spec_pct(rem.skip(1)));
            assert((out0 + spec_pct_char(rem[0])) + spec_pct(s@.skip(i as int)) =~= out0 + (
            spec_pct_char(rem[0]) + spec_pct(s@.skip(i as int))));
        }
    }
    proof {
        assert(s@.skip(n as int) =~= Seq::<char>::empty());
        assert(out@ + spec_pct(Seq::<char>::empty()) =~= out@);
    }
}

} // verus!
