//! Verified construction of the JSON request bodies: string escaping,
//! decimal rendering, and the exact byte-for-byte body layouts of the
//! provider wire formats.

use vstd::prelude::*;
use vstd::string::StrSliceExecFns;
use vstd::string::StringExecFns;

verus! {

/// Relies on `String::push`: appends exactly the given character.
pub assume_specification[ String::push ](s: &mut String, c: char)
    ensures
        final(s)@ == old(s)@.push(c),
;

/// The decimal digit character of `d`.
pub open spec fn dec_digit(d: nat) -> char {
    if d == 0 {
        '0'
    } else if d == 1 {
        '1'
    } else if d == 2 {
        '2'
    } else if d == 3 {
        '3'
    } else if d == 4 {
        '4'
    } else if d == 5 {
        '5'
    } else if d == 6 {
        '6'
    } else if d == 7 {
        '7'
    } else if d == 8 {
        '8'
    } else {
        '9'
    }
}

/// The usual decimal rendering of `n`, without leading zeros (except for
/// zero itself).
pub open spec fn dec_seq(n: nat) -> Seq<char>
    decreases n,
{
    if n < 10 {
        seq![dec_digit(n)]
    } else {
        dec_seq(n / 10) + seq![dec_digit(n % 10)]
    }
}

fn dec_digit_char(d: u32) -> (c: char)
    requires
        d < 10,
    ensures
        c == dec_digit(d as nat),
{
    match d {
        0 => '0',
        1 => '1',
        2 => '2',
        3 => '3',
        4 => '4',
        5 => '5',
        6 => '6',
        7 => '7',
        8 => '8',
        _ => '9',
    }
}

/// Renders `n` in decimal.
pub fn dec_string(n: u32) -> (r: String)
    ensures
        r@ == dec_seq(n as nat),
    decreases n,
{
    if n < 10 {
        let mut r = String::new();
        r.push(dec_digit_char(n));
        proof {
            assert(r@ =~= seq![dec_digit(n as nat)]);
        }
        r
    } else {
        let mut r = dec_string(n / 10);
        r.push(dec_digit_char(n % 10));
        proof {
            assert(r@ =~= dec_seq((n / 10) as nat) + seq![dec_digit((n % 10) as nat)]);
        }
        r
    }
}

/// A sampling temperature in hundredths, rendered as a decimal with two
/// fractional digits (70 becomes "0.70").
pub open spec fn temp_seq(centi: nat) -> Seq<char> {
    dec_seq(centi / 100) + seq!['.', dec_digit((centi % 100) / 10), dec_digit(centi % 10)]
}

/// Renders a temperature given in hundredths.
pub fn temp_string(centi: u32) -> (r: String)
    ensures
        r@ == temp_seq(centi as nat),
{
    let mut r = dec_string(centi / 100);
    r.push('.');
    r.push(dec_digit_char((centi % 100) / 10));
    r.push(dec_digit_char(centi % 10));
    proof {
        assert((centi % 100) as nat / 10 == (centi as nat % 100) / 10);
        assert(r@ =~= temp_seq(centi as nat));
    }
    r
}

/// The hexadecimal digit character of `d` (lower case).
pub open spec fn hex_digit(d: nat) -> char {
    if d < 10 {
        dec_digit(d)
    } else if d == 10 {
        'a'
    } else if d == 11 {
        'b'
    } else if d == 12 {
        'c'
    } else if d == 13 {
        'd'
    } else if d == 14 {
        'e'
    } else {
        'f'
    }
}

fn hex_digit_char(d: u32) -> (c: char)
    requires
        d < 16,
    ensures
        c == hex_digit(d as nat),
{
    if d < 10 {
        dec_digit_char(d)
    } else {
        match d {
            10 => 'a',
            11 => 'b',
            12 => 'c',
            13 => 'd',
            14 => 'e',
            _ => 'f',
        }
    }
}

/// How one character appears inside a JSON string literal: quote,
/// backslash and the common control characters get two-character escapes,
/// the remaining control characters a `\u00XX` escape, and every other
/// character stands for itself.
pub open spec fn escape_char(c: char) -> Seq<char> {
    if c == '"' {
        "\\\""@
    } else if c == '\\' {
        "\\\\"@
    } else if c == '\n' {
        "\\n"@
    } else if c == '\r' {
        "\\r"@
    } else if c == '\t' {
        "\\t"@
    } else if (c as u32) < 32 {
        "\\u00"@ + seq![hex_digit((c as u32) as nat / 16), hex_digit((c as u32) as nat % 16)]
    } else {
        seq![c]
    }
}

/// The body of a JSON string literal for `s`: each character escaped.
pub open spec fn escape_seq(s: Seq<char>) -> Seq<char>
    decreases s.len(),
{
    if s.len() == 0 {
        Seq::empty()
    } else {
        escape_seq(s.drop_last()) + escape_char(s.last())
    }
}

/// A complete JSON string literal: quotes around the escaped text.
pub open spec fn jstr(s: Seq<char>) -> Seq<char> {
    "\""@ + escape_seq(s) + "\""@
}

/// Escapes `s` for inclusion in a JSON string literal.
pub fn escape_json(s: &str) -> (r: String)
    ensures
        r@ == escape_seq(s@),
{
    let n = s.unicode_len();
    let mut r = String::new();
    let mut i: usize = 0;
    while i < n
        invariant
            i <= n,
            n == s@.len(),
            r@ == escape_seq(s@.subrange(0, i as int)),
        decreases n - i,
    {
        let c = s.get_char(i);
        proof {
            assert(s@.subrange(0, i + 1).drop_last() =~= s@.subrange(0, i as int));
            assert(s@.subrange(0, i + 1).last() == s@[i as int]);
        }
        if c == '"' {
            r.append("\\\"");
        } else if c == '\\' {
            r.append("\\\\");
        } else if c == '\n' {
            r.append("\\n");
        } else if c == '\r' {
            r.append("\\r");
        } else if c == '\t' {
            r.append("\\t");
        } else if (c as u32) < 32 {
            r.append("\\u00");
            r.push(hex_digit_char((c as u32) / 16));
            r.push(hex_digit_char((c as u32) % 16));
            proof {
                assert(r@ =~= escape_seq(s@.subrange(0, i as int)) + escape_char(c));
            }
        } else {
            r.push(c);
            proof {
                assert(r@ =~= escape_seq(s@.subrange(0, i as int)) + escape_char(c));
            }
        }
        i = i + 1;
    }
    proof {
        assert(s@.subrange(0, n as int) =~= s@);
    }
    r
}

/// Builds the JSON string literal for `s`.
pub fn jstr_string(s: &str) -> (r: String)
    ensures
        r@ == jstr(s@),
{
    let mut r = String::from_str("\"");
    r.append(escape_json(s).as_str());
    r.append("\"");
    r
}

/// The JSON rendering of a boolean.
pub open spec fn bool_seq(b: bool) -> Seq<char> {
    if b {
        "true"@
    } else {
        "false"@
    }
}

/// Renders a boolean as JSON.
pub fn bool_string(b: bool) -> (r: String)
    ensures
        r@ == bool_seq(b),
{
    if b {
        String::from_str("true")
    } else {
        String::from_str("false")
    }
}

} // verus!
