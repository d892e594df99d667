//! JSON string escaping and unescaping for the wire format.
//!
//! The daemon and client exchange one JSON value per line. String contents
//! are escaped the canonical way: `"` and `\` get a backslash escape, the
//! five control characters with short forms use them (`\b`, `\t`, `\n`,
//! `\f`, `\r`), every other control character below space becomes `\u00xx`
//! with lower-case hex digits, and all other characters stand for
//! themselves. The scanner accepts exactly this canonical form.

use vstd::prelude::*;
use crate::chars::spec_digit_char;
use crate::chars::digit_char;

verus! {

broadcast use vstd::utf8::char_is_scalar, vstd::utf8::char_u32_cast;

/// Characters with a two-character escape form.
pub open spec fn is_short_escape(c: char) -> bool {
    ||| c == '"'
    ||| c == '\\'
    ||| c as u32 == 8
    ||| c as u32 == 9
    ||| c as u32 == 10
    ||| c as u32 == 12
    ||| c as u32 == 13
}

/// The character that follows the backslash in a short escape.
pub open spec fn short_escape_code(c: char) -> char {
    if c == '"' {
        '"'
    } else if c == '\\' {
        '\\'
    } else if c as u32 == 8 {
        'b'
    } else if c as u32 == 9 {
        't'
    } else if c as u32 == 10 {
        'n'
    } else if c as u32 == 12 {
        'f'
    } else {
        'r'
    }
}

/// Characters that may follow a backslash in a short escape.
pub open spec fn is_short_code(e: char) -> bool {
    ||| e == '"'
    ||| e == '\\'
    ||| e == 'b'
    ||| e == 't'
    ||| e == 'n'
    ||| e == 'f'
    ||| e == 'r'
}

/// The character a short escape stands for.
pub open spec fn short_code_value(e: char) -> char {
    if e == '"' {
        '"'
    } else if e == '\\' {
        '\\'
    } else if e == 'b' {
        8u32 as char
    } else if e == 't' {
        9u32 as char
    } else if e == 'n' {
        10u32 as char
    } else if e == 'f' {
        12u32 as char
    } else {
        13u32 as char
    }
}

/// Digits `0`-`9` and lower-case `a`-`f`.
pub open spec fn is_hex_lower(c: char) -> bool {
    (48 <= c as u32 && c as u32 <= 57) || (97 <= c as u32 && c as u32 <= 102)
}

/// The value of one lower-case hex digit.
pub open spec fn spec_hex_val(c: char) -> int {
    if 48 <= c as u32 && c as u32 <= 57 {
        c as u32 - 48
    } else {
        c as u32 - 97 + 10
    }
}

/// The escape sequence (possibly the character itself) for one character.
pub open spec fn escape_char(c: char) -> Seq<char> {
    if is_short_escape(c) {
        seq!['\\', short_escape_code(c)]
    } else if (c as u32) < 32 {
        seq![
            '\\',
            'u',
            '0',
            '0',
            spec_digit_char((c as u32 / 16) as int),
            spec_digit_char((c as u32 % 16) as int),
        ]
    } else {
        seq![c]
    }
}

/// The escaped form of a whole string.
pub open spec fn escape_string(s: Seq<char>) -> Seq<char>
    decreases s.len(),
{
    if s.len() == 0 {
        Seq::empty()
    } else {
        escape_char(s[0]) + escape_string(s.skip(1))
    }
}

/// Reads escaped string contents up to and including the closing quote.
/// Returns the decoded contents and what follows the closing quote, or
/// `None` when the input is not in the canonical escaped form.
pub open spec fn parse_string_body(s: Seq<char>) -> Option<(Seq<char>, Seq<char>)>
    decreases s.len(),
{
    if s.len() == 0 {
        None
    } else if s[0] == '"' {
        Some((Seq::empty(), s.skip(1)))
    } else if s[0] == '\\' {
        if s.len() < 2 {
            None
        } else if is_short_code(s[1]) {
            match parse_string_body(s.skip(2)) {
                Some((d, r)) => Some((seq![short_code_value(s[1])] + d, r)),
                None => None,
            }
        } else if s[1] == 'u' {
            if s.len() < 6 {
                None
            } else if s[2] == '0' && s[3] == '0' && is_hex_lower(s[4]) && is_hex_lower(s[5])
                && 16 * spec_hex_val(s[4]) + spec_hex_val(s[5]) < 32 && !is_short_escape(
                ((16 * spec_hex_val(s[4]) + spec_hex_val(s[5])) as u32) as char,
            ) {
                match parse_string_body(s.skip(6)) {
                    Some((d, r)) => Some(
                        (
                            seq![((16 * spec_hex_val(s[4]) + spec_hex_val(s[5])) as u32) as char]
                                + d,
                            r,
                        ),
                    ),
                    None => None,
                }
            } else {
                None
            }
        } else {
            None
        }
    } else if (s[0] as u32) < 32 {
        None
    } else {
        match parse_string_body(s.skip(1)) {
            Some((d, r)) => Some((seq![s[0]] + d, r)),
            None => None,
        }
    }
}

/// Scanning the canonical escaped form of `s`, followed by the closing
/// quote and anything after it, decodes back to `s` and leaves the rest.
pub proof fn lemma_parse_escaped(s: Seq<char>, rest: Seq<char>)
    ensures
        parse_string_body(escape_string(s) + seq!['"'] + rest) == Some((s, rest)),
    decreases s.len(),
{
    if s.len() == 0 {
        let t = escape_string(s) + seq!['"'] + rest;
        assert(t =~= seq!['"'] + rest);
        assert(t[0] == '"');
        assert(t.skip(1) =~= rest);
    } else {
        let c = s[0];
        let e = escape_char(c);
        let tail = escape_string(s.skip(1)) + seq!['"'] + rest;
        let t = escape_string(s) + seq!['"'] + rest;
        assert(t =~= e + tail);
        lemma_parse_escaped(s.skip(1), rest);
        if is_short_escape(c) {
            assert(t[0] == '\\');
            assert(t[1] == short_escape_code(c));
            assert(is_short_code(short_escape_code(c)));
            assert(t.skip(2) =~= tail);
            if c as u32 == 8 {
                vstd::utf8::char_u32_cast(c, 8u32);
            }
            if c as u32 == 9 {
                vstd::utf8::char_u32_cast(c, 9u32);
            }
            if c as u32 == 10 {
                vstd::utf8::char_u32_cast(c, 10u32);
            }
            if c as u32 == 12 {
                vstd::utf8::char_u32_cast(c, 12u32);
            }
            if c as u32 == 13 {
                vstd::utf8::char_u32_cast(c, 13u32);
            }
            assert(short_code_value(short_escape_code(c)) == c);
            assert(seq![c] + s.skip(1) =~= s);
        } else if (c as u32) < 32 {
            let hi = (c as u32 / 16) as int;
            let lo = (c as u32 % 16) as int;
            assert(t[0] == '\\' && t[1] == 'u' && t[2] == '0' && t[3] == '0');
            assert(t[4] == spec_digit_char(hi));
            assert(t[5] == spec_digit_char(lo));
            assert(0 <= hi < 2 && 0 <= lo < 16);
            assert(is_hex_lower(spec_digit_char(hi)));
            assert(is_hex_lower(spec_digit_char(lo)));
            assert(spec_hex_val(spec_digit_char(hi)) == hi);
            assert(spec_hex_val(spec_digit_char(lo)) == lo);
            assert(16 * hi + lo == c as u32);
            vstd::utf8::char_u32_cast(c, (16 * hi + lo) as u32);
            assert(((16 * hi + lo) as u32) as char == c);
            assert(t.skip(6) =~= tail);
            assert(seq![c] + s.skip(1) =~= s);
        } else {
            assert(t[0] == c);
            assert(c != '"' && c != '\\');
            assert(t.skip(1) =~= tail);
            assert(seq![c] + s.skip(1) =~= s);
        }
    }
}

/// Executable hex digit decoder.
pub fn hex_val(c: char) -> (r: Option<u8>)
    ensures
        match r {
            Some(d) => is_hex_lower(c) && d == spec_hex_val(c) && d < 16,
            None => !is_hex_lower(c),
        },
{
    let u = c as u32;
    if 48 <= u && u <= 57 {
        Some((u - 48) as u8)
    } else if 97 <= u && u <= 102 {
        Some((u - 97 + 10) as u8)
    } else {
        None
    }
}

/// Appends the escape sequence of one character.
pub fn push_escaped_char(c: char, out: &mut Vec<char>)
    ensures
        final(out)@ == old(out)@ + escape_char(c),
{
    let u = c as u32;
    if c == '"' {
        out.push('\\');
        out.push('"');
    } else if c == '\\' {
        out.push('\\');
        out.push('\\');
    } else if u == 8 {
        out.push('\\');
        out.push('b');
    } else if u == 9 {
        out.push('\\');
        out.push('t');
    } else if u == 10 {
        out.push('\\');
        out.push('n');
    } else if u == 12 {
        out.push('\\');
        out.push('f');
    } else if u == 13 {
        out.push('\\');
        out.push('r');
    } else if u < 32 {
        out.push('\\');
        out.push('u');
        out.push('0');
        out.push('0');
        out.push(digit_char((u / 16) as u8));
        out.push(digit_char((u % 16) as u8));
    } else {
        out.push(c);
    }
    assert(out@ =~= old(out)@ + escape_char(c));
}

/// Appends the escaped form of `v` starting at `i`.
pub fn push_escaped_from(v: &Vec<char>, i: usize, out: &mut Vec<char>)
    requires
        i <= v@.len(),
    ensures
        final(out)@ == old(out)@ + escape_string(v@.skip(i as int)),
    decreases v@.len() - i,
{
    if i == v.len() {
        assert(v@.skip(i as int).len() == 0);
        assert(old(out)@ + escape_string(v@.skip(i as int)) =~= old(out)@);
    } else {
        push_escaped_char(v[i], out);
        push_escaped_from(v, i + 1, out);
        assert(v@.skip(i as int)[0] == v@[i as int]);
        assert(v@.skip(i as int).skip(1) =~= v@.skip(i as int + 1));
        assert(old(out)@ + escape_char(v@[i as int]) + escape_string(v@.skip(i as int + 1))
            =~= old(out)@ + escape_string(v@.skip(i as int)));
    }
}

/// Scans the canonical escaped form in `v` starting at `i`, appending the
/// decoded characters to `out`. On success returns the position just after
/// the closing quote.
pub fn scan_string_body(v: &Vec<char>, i: usize, out: &mut Vec<char>) -> (r: Option<usize>)
    requires
        i <= v@.len(),
    ensures
        r matches Some(j) ==> {
            &&& i < j <= v@.len()
            &&& parse_string_body(v@.skip(i as int)) matches Some(p) && final(out)@ == old(out)@
                + p.0 && p.1 == v@.skip(j as int)
        },
        r is None ==> parse_string_body(v@.skip(i as int)) is None,
    decreases v@.len() - i,
{
    let ghost s = v@.skip(i as int);
    if i == v.len() {
        return None;
    }
    let c = v[i];
    assert(s[0] == c);
    if c == '"' {
        assert(s.skip(1) =~= v@.skip(i as int + 1));
        assert(out@ =~= out@ + Seq::<char>::empty());
        return Some(i + 1);
    }
    if c == '\\' {
        if i + 1 == v.len() {
            assert(s.len() < 2);
            return None;
        }
        let e = v[i + 1];
        assert(s[1] == e);
        if e == '"' || e == '\\' || e == 'b' || e == 't' || e == 'n' || e == 'f' || e == 'r' {
            let decoded: char = if e == 'b' {
                8u8 as char
            } else if e == 't' {
                9u8 as char
            } else if e == 'n' {
                10u8 as char
            } else if e == 'f' {
                12u8 as char
            } else if e == 'r' {
                13u8 as char
            } else {
                e
            };
            assert(decoded == short_code_value(e));
            out.push(decoded);
            let r = scan_string_body(v, i + 2, out);
            assert(s.skip(2) =~= v@.skip(i as int + 2));
            match r {
                Some(j) => {
                    proof {
                        let p2 = parse_string_body(v@.skip(i as int + 2)).unwrap();
                        assert(out@ =~= old(out)@ + (seq![decoded] + p2.0));
                    }
                    Some(j)
                },
                None => None,
            }
        } else if e == 'u' {
            if v.len() - i < 6 {
                assert(s.len() < 6);
                return None;
            }
            assert(s[2] == v@[i as int + 2] && s[3] == v@[i as int + 3] && s[4] == v@[i as int + 4]
                && s[5] == v@[i as int + 5]);
            if !(v[i + 2] == '0' && v[i + 3] == '0') {
                return None;
            }
            let h4 = hex_val(v[i + 4]);
            let h5 = hex_val(v[i + 5]);
            match (h4, h5) {
                (Some(hi), Some(lo)) => {
                    let code: u8 = 16 * hi + lo;
                    if code < 32 && !(code == 8 || code == 9 || code == 10 || code == 12 || code
                        == 13) {
                        let decoded: char = code as char;
                        assert(decoded as u32 == code);
                        assert(!is_short_escape(decoded));
                        out.push(decoded);
                        let r = scan_string_body(v, i + 6, out);
                        assert(s.skip(6) =~= v@.skip(i as int + 6));
                        match r {
                            Some(j) => {
                                proof {
                                    let p2 = parse_string_body(v@.skip(i as int + 6)).unwrap();
                                    assert(out@ =~= old(out)@ + (seq![decoded] + p2.0));
                                }
                                Some(j)
                            },
                            None => None,
                        }
                    } else {
                        assert(parse_string_body(s) is None);
                        None
                    }
                },
                _ => {
                    assert(parse_string_body(s) is None);
                    None
                },
            }
        } else {
            None
        }
    } else if (c as u32) < 32 {
        None
    } else {
        out.push(c);
        let r = scan_string_body(v, i + 1, out);
        assert(s.skip(1) =~= v@.skip(i as int + 1));
        match r {
            Some(j) => {
                proof {
                    let p2 = parse_string_body(v@.skip(i as int + 1)).unwrap();
                    assert(out@ =~= old(out)@ + (seq![c] + p2.0));
                }
                Some(j)
            },
            None => None,
        }
    }
}

} // verus!
