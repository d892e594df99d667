//! Character-level helpers shared by the wire codec and the status
//! formatting: building strings character by character, and rendering
//! unsigned numbers in decimal.

use vstd::prelude::*;
use vstd::string::StrSliceExecFns;

verus! {

/// Relies on `String::push`: appends the given character to the end of the
/// string.
#[verifier::external_body]
pub fn push_char(s: &mut String, c: char)
    ensures
        final(s)@ == old(s)@ + seq![c],
{
    s.push(c);
}

/// Builds the string whose characters are exactly `v`.
pub fn chars_to_string(v: &Vec<char>) -> (s: String)
    ensures
        s@ == v@,
{
    let mut s = String::new();
    let mut i: usize = 0;
    while i < v.len()
        invariant
            i <= v@.len(),
            s@ == v@.subrange(0, i as int),
        decreases v@.len() - i,
    {
        push_char(&mut s, v[i]);
        i = i + 1;
        assert(s@ =~= v@.subrange(0, i as int));
    }
    assert(v@.subrange(0, v@.len() as int) =~= v@);
    s
}

/// Collects the characters of `s` into a vector.
pub fn str_to_chars(s: &str) -> (v: Vec<char>)
    ensures
        v@ == s@,
{
    let n = s.unicode_len();
    let mut v: Vec<char> = Vec::new();
    let mut i: usize = 0;
    while i < n
        invariant
            n == s@.len(),
            i <= n,
            v@ == s@.subrange(0, i as int),
        decreases n - i,
    {
        let c = s.get_char(i);
        v.push(c);
        i = i + 1;
        assert(v@ =~= s@.subrange(0, i as int));
    }
    assert(s@.subrange(0, n as int) =~= s@);
    v
}

/// Appends the characters of `kw` to `out`.
pub fn push_str_chars(out: &mut Vec<char>, kw: &str)
    ensures
        final(out)@ == old(out)@ + kw@,
{
    let k = str_to_chars(kw);
    let mut i: usize = 0;
    while i < k.len()
        invariant
            k@ == kw@,
            i <= k@.len(),
            out@ == old(out)@ + k@.subrange(0, i as int),
        decreases k@.len() - i,
    {
        out.push(k[i]);
        i = i + 1;
        assert(out@ =~= old(out)@ + k@.subrange(0, i as int));
    }
    assert(old(out)@ + k@.subrange(0, k@.len() as int) =~= old(out)@ + kw@);
}

/// The character for one digit value below 16, using lower-case letters
/// for the values ten and up.
pub open spec fn spec_digit_char(d: int) -> char {
    if d < 10 {
        (('0' as int) + d) as char
    } else {
        (('a' as int) + (d - 10)) as char
    }
}

/// Executable counterpart of [`spec_digit_char`].
pub fn digit_char(d: u8) -> (c: char)
    requires
        d < 16,
    ensures
        c == spec_digit_char(d as int),
{
    if d < 10 {
        (48u8 + d) as char
    } else {
        (97u8 + (d - 10)) as char
    }
}

/// The decimal rendering of `n`, most significant digit first, without
/// leading zeros (the single digit `0` for zero).
pub open spec fn spec_decimal(n: nat) -> Seq<char>
    decreases n,
{
    if n < 10 {
        seq![spec_digit_char(n as int)]
    } else {
        spec_decimal(n / 10) + seq![spec_digit_char((n % 10) as int)]
    }
}

/// Appends the decimal rendering of `n` to `out`.
pub fn push_decimal(n: u64, out: &mut Vec<char>)
    ensures
        final(out)@ == old(out)@ + spec_decimal(n as nat),
    decreases n,
{
    if n < 10 {
        out.push(digit_char(n as u8));
        assert(out@ =~= old(out)@ + spec_decimal(n as nat));
    } else {
        push_decimal(n / 10, out);
        out.push(digit_char((n % 10) as u8));
        assert(out@ =~= old(out)@ + spec_decimal(n as nat));
    }
}

/// Renders `n` in decimal.
pub fn u64_to_decimal(n: u64) -> (s: String)
    ensures
        s@ == spec_decimal(n as nat),
{
    let mut v: Vec<char> = Vec::new();
    push_decimal(n, &mut v);
    chars_to_string(&v)
}

} // verus!
