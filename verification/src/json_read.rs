//! A JSON reader for the provider response bodies. The grammar is stated
//! as a family of spec-level parsing functions culminating in [`json_of`];
//! the executable recursive-descent parser is proved to return exactly the
//! value and positions those functions describe.

use vstd::prelude::*;
use vstd::string::StrSliceExecFns;

verus! {

broadcast use vstd::std_specs::vec::group_vec_axioms;

/// A parsed JSON value. Number text is kept verbatim and not interpreted:
/// no response field read by this library is numeric.
#[derive(Debug, PartialEq)]
pub enum Json {
    Null,
    Bool(bool),
    Num(String),
    Str(String),
    Arr(Vec<Json>),
    Obj(Vec<(String, Json)>),
}

/// The mathematical form of a parsed JSON value: what [`Json`] holds, with
/// every string as its character sequence.
pub enum JsonView {
    Null,
    Bool(bool),
    Num(Seq<char>),
    Str(Seq<char>),
    Arr(Seq<JsonView>),
    Obj(Seq<(Seq<char>, JsonView)>),
}

impl Json {
    /// The mathematical form of this value.
    pub open spec fn view(&self) -> JsonView
        decreases *self,
    {
        match self {
            Json::Null => JsonView::Null,
            Json::Bool(b) => JsonView::Bool(*b),
            Json::Num(s) => JsonView::Num(s@),
            Json::Str(s) => JsonView::Str(s@),
            Json::Arr(items) => JsonView::Arr(
                Seq::new(
                    items@.len(),
                    |k: int|
                        if 0 <= k < items@.len() {
                            items@[k].view()
                        } else {
                            JsonView::Null
                        },
                ),
            ),
            Json::Obj(fields) => JsonView::Obj(
                Seq::new(
                    fields@.len(),
                    |k: int|
                        if 0 <= k < fields@.len() {
                            (fields@[k].0@, fields@[k].1.view())
                        } else {
                            (Seq::empty(), JsonView::Null)
                        },
                ),
            ),
        }
    }
}

/// The views of a run of values.
pub open spec fn views_of(items: Seq<Json>) -> Seq<JsonView> {
    items.map_values(|j: Json| j.view())
}

/// The views of a run of members.
pub open spec fn fields_view(fs: Seq<(String, Json)>) -> Seq<(Seq<char>, JsonView)> {
    fs.map_values(|f: (String, Json)| (f.0@, f.1.view()))
}

/// An array value's view is the views of its items.
pub proof fn lemma_arr_view(items: Vec<Json>)
    ensures
        Json::Arr(items).view() == JsonView::Arr(views_of(items@)),
{
    assert(Json::Arr(items).view() matches JsonView::Arr(vs) && vs =~= views_of(items@));
}

/// An object value's view is the views of its members.
pub proof fn lemma_obj_view(fields: Vec<(String, Json)>)
    ensures
        Json::Obj(fields).view() == JsonView::Obj(fields_view(fields@)),
{
    assert(Json::Obj(fields).view() matches JsonView::Obj(vs) && vs =~= fields_view(fields@));
}

/// Whether `v` is a Unicode scalar value: anything in the character range
/// except the surrogate halves.
pub open spec fn valid_scalar(v: u32) -> bool {
    v < 0xD800 || (0xE000 <= v && v <= 0x10FFFF)
}

/// The character with scalar value `v`, for a valid `v`.
pub open spec fn char_of(v: u32) -> char {
    choose|c: char| (#[trigger] (c as u32)) == v
}

/// A character pins down [`char_of`] of its own scalar value.
proof fn lemma_char_of(ch: char, v: u32)
    requires
        ch as u32 == v,
    ensures
        char_of(v) == ch,
{
    assert(exists|c: char| (#[trigger] (c as u32)) == v) by {
        assert((ch as u32) == v);
    }
    assert((char_of(v) as u32) == v);
}

/// Relies on `char::from_u32`: it returns the character with the given
/// scalar value exactly when that value is a Unicode scalar value, that
/// is, not a surrogate and not beyond the character range.
pub assume_specification[ char::from_u32 ](i: u32) -> (r: Option<char>)
    ensures
        r matches Some(c) ==> c as u32 == i,
        r is Some <==> valid_scalar(i),
;

// ---------------------------------------------------------------------
// The grammar, stated as spec-level parsing functions over the body's
// characters. Each takes the position it starts at and gives back what it
// read and the position after it, or nothing where the text does not
// match.
// ---------------------------------------------------------------------

/// JSON whitespace.
pub open spec fn spec_is_ws(c: char) -> bool {
    c == ' ' || c == '\t' || c == '\n' || c == '\r'
}

/// The first position at or after `i` that does not hold whitespace.
pub open spec fn spec_skip_ws(s: Seq<char>, i: int) -> int
    decreases s.len() - i,
{
    if 0 <= i < s.len() && spec_is_ws(s[i]) {
        spec_skip_ws(s, i + 1)
    } else {
        i
    }
}

/// The value of one hexadecimal digit character, upper or lower case.
pub open spec fn spec_hex_val(c: char) -> Option<u32> {
    let u = c as u32;
    if 48 <= u && u <= 57 {
        Some((u - 48) as u32)
    } else if 97 <= u && u <= 102 {
        Some((u - 97 + 10) as u32)
    } else if 65 <= u && u <= 70 {
        Some((u - 65 + 10) as u32)
    } else {
        None
    }
}

/// The value of the four hexadecimal digits at `i`.
pub open spec fn spec_hex4(s: Seq<char>, i: int) -> Option<u32> {
    if 0 <= i && i + 4 <= s.len() {
        match (spec_hex_val(s[i]), spec_hex_val(s[i + 1]), spec_hex_val(s[i + 2]), spec_hex_val(
            s[i + 3],
        )) {
            (Some(a), Some(b), Some(c), Some(d)) => Some((4096 * a + 256 * b + 16 * c + d) as u32),
            _ => None,
        }
    } else {
        None
    }
}

/// What one short escape character after a backslash stands for.
pub open spec fn spec_escape_char(e: char) -> Option<char> {
    if e == '"' {
        Some('"')
    } else if e == '\\' {
        Some('\\')
    } else if e == '/' {
        Some('/')
    } else if e == 'n' {
        Some('\n')
    } else if e == 't' {
        Some('\t')
    } else if e == 'r' {
        Some('\r')
    } else if e == 'b' {
        Some('\u{0008}')
    } else if e == 'f' {
        Some('\u{000C}')
    } else {
        None
    }
}

/// The rest of a string literal from position `j` (after the opening
/// quote): the decoded characters up to the closing quote, and the
/// position after that quote. A high surrogate escape must pair with a
/// following low surrogate escape.
pub open spec fn spec_string_rest(s: Seq<char>, j: int) -> Option<(Seq<char>, int)>
    decreases s.len() - j,
{
    if !(0 <= j < s.len()) {
        None
    } else if s[j] == '"' {
        Some((Seq::empty(), j + 1))
    } else if s[j] == '\\' {
        if s.len() - j < 2 {
            None
        } else {
            let e = s[j + 1];
            if e == 'u' {
                if s.len() - j < 6 {
                    None
                } else {
                    match spec_hex4(s, j + 2) {
                        Some(v) => if 0xD800 <= v && v < 0xDC00 {
                            if s.len() - j < 12 {
                                None
                            } else if s[j + 6] == '\\' && s[j + 7] == 'u' {
                                match spec_hex4(s, j + 8) {
                                    Some(lo) => if 0xDC00 <= lo && lo < 0xE000 {
                                        let code = (0x10000 + (v - 0xD800) * 0x400 + (lo
                                            - 0xDC00)) as u32;
                                        match spec_string_rest(s, j + 12) {
                                            Some(p) => Some((seq![char_of(code)] + p.0, p.1)),
                                            None => None,
                                        }
                                    } else {
                                        None
                                    },
                                    None => None,
                                }
                            } else {
                                None
                            }
                        } else if valid_scalar(v) {
                            match spec_string_rest(s, j + 6) {
                                Some(p) => Some((seq![char_of(v)] + p.0, p.1)),
                                None => None,
                            }
                        } else {
                            None
                        },
                        None => None,
                    }
                }
            } else {
                match spec_escape_char(e) {
                    Some(c) => match spec_string_rest(s, j + 2) {
                        Some(p) => Some((seq![c] + p.0, p.1)),
                        None => None,
                    },
                    None => None,
                }
            }
        }
    } else {
        match spec_string_rest(s, j + 1) {
            Some(p) => Some((seq![s[j]] + p.0, p.1)),
            None => None,
        }
    }
}

/// A whole string literal at `i`: an opening quote, then its rest.
pub open spec fn spec_string_body(s: Seq<char>, i: int) -> Option<(Seq<char>, int)> {
    if 0 <= i < s.len() && s[i] == '"' {
        spec_string_rest(s, i + 1)
    } else {
        None
    }
}

/// A character that may appear in (lenient) number text.
pub open spec fn spec_is_num_char(c: char) -> bool {
    let u = c as u32;
    c == '-' || c == '+' || c == '.' || c == 'e' || c == 'E' || (48 <= u && u <= 57)
}

/// The longest run of number characters from `j`, and the position after.
pub open spec fn spec_num_rest(s: Seq<char>, j: int) -> (Seq<char>, int)
    decreases s.len() - j,
{
    if 0 <= j < s.len() && spec_is_num_char(s[j]) {
        let p = spec_num_rest(s, j + 1);
        (seq![s[j]] + p.0, p.1)
    } else {
        (Seq::empty(), j)
    }
}

/// A number at `i`: a non-empty run of number characters, verbatim.
pub open spec fn spec_parse_number(s: Seq<char>, i: int) -> Option<(Seq<char>, int)> {
    let p = spec_num_rest(s, i);
    if p.1 == i {
        None
    } else {
        Some(p)
    }
}

/// One JSON value at `i` (no leading whitespace): which variant starts
/// there, what it holds, and the position after it.
pub open spec fn spec_parse_value(s: Seq<char>, i: int) -> Option<(JsonView, int)>
    decreases s.len() - i, 0int,
    when 0 <= i <= s.len()
{
    if i >= s.len() {
        None
    } else {
        let c = s[i];
        if c == 'n' {
            if s.len() - i >= 4 && s[i + 1] == 'u' && s[i + 2] == 'l' && s[i + 3] == 'l' {
                Some((JsonView::Null, i + 4))
            } else {
                None
            }
        } else if c == 't' {
            if s.len() - i >= 4 && s[i + 1] == 'r' && s[i + 2] == 'u' && s[i + 3] == 'e' {
                Some((JsonView::Bool(true), i + 4))
            } else {
                None
            }
        } else if c == 'f' {
            if s.len() - i >= 5 && s[i + 1] == 'a' && s[i + 2] == 'l' && s[i + 3] == 's' && s[i + 4]
                == 'e' {
                Some((JsonView::Bool(false), i + 5))
            } else {
                None
            }
        } else if c == '"' {
            match spec_string_body(s, i) {
                Some(p) => Some((JsonView::Str(p.0), p.1)),
                None => None,
            }
        } else if c == '[' {
            let j = spec_skip_ws(s, i + 1);
            if j < s.len() && s[j] == ']' {
                Some((JsonView::Arr(Seq::empty()), j + 1))
            } else if i < j <= s.len() {
                // skipping from i + 1 always lands here; restating the
                // bound keeps the recursion visibly decreasing
                match spec_array_rest(s, j) {
                    Some(p) => Some((JsonView::Arr(p.0), p.1)),
                    None => None,
                }
            } else {
                None
            }
        } else if c == '{' {
            let j = spec_skip_ws(s, i + 1);
            if j < s.len() && s[j] == '}' {
                Some((JsonView::Obj(Seq::empty()), j + 1))
            } else if i < j <= s.len() {
                match spec_object_rest(s, j) {
                    Some(p) => Some((JsonView::Obj(p.0), p.1)),
                    None => None,
                }
            } else {
                None
            }
        } else if c == '-' || spec_is_num_char(c) {
            match spec_parse_number(s, i) {
                Some(p) => Some((JsonView::Num(p.0), p.1)),
                None => None,
            }
        } else {
            None
        }
    }
}

/// The items of an array from the start of its first item at `i`: each
/// item, the commas and whitespace between them, and the position after
/// the closing bracket.
pub open spec fn spec_array_rest(s: Seq<char>, i: int) -> Option<(Seq<JsonView>, int)>
    decreases s.len() - i, 1int,
    when 0 <= i <= s.len()
{
    match spec_parse_value(s, i) {
        None => None,
        Some((v, e)) => {
            if i < e <= s.len() {
                // a parsed value always ends within these bounds; the
                // restated bound keeps the recursion visibly decreasing
                let j3 = spec_skip_ws(s, e);
                if j3 < s.len() && s[j3] == ',' {
                    let j4 = spec_skip_ws(s, j3 + 1);
                    if i < j4 <= s.len() {
                        match spec_array_rest(s, j4) {
                            Some(p) => Some((seq![v] + p.0, p.1)),
                            None => None,
                        }
                    } else {
                        None
                    }
                } else if j3 < s.len() && s[j3] == ']' {
                    Some((seq![v], j3 + 1))
                } else {
                    None
                }
            } else {
                None
            }
        },
    }
}

/// The members of an object from the start of its first key at `i`: each
/// key and value, the colons, commas and whitespace between them, and the
/// position after the closing brace.
pub open spec fn spec_object_rest(s: Seq<char>, i: int) -> Option<
    (Seq<(Seq<char>, JsonView)>, int),
>
    decreases s.len() - i, 1int,
    when 0 <= i <= s.len()
{
    match spec_string_body(s, i) {
        None => None,
        Some((k, e)) => {
            if i < e <= s.len() {
                // a parsed key always ends within these bounds; the
                // restated bound keeps the recursion visibly decreasing
                let j3 = spec_skip_ws(s, e);
                if j3 < s.len() && s[j3] == ':' {
                    let j4 = spec_skip_ws(s, j3 + 1);
                    if i < j4 <= s.len() {
                        match spec_parse_value(s, j4) {
                            None => None,
                            Some((v, e5)) => {
                                if j4 < e5 <= s.len() {
                                    let j6 = spec_skip_ws(s, e5);
                                    if j6 < s.len() && s[j6] == ',' {
                                        let j7 = spec_skip_ws(s, j6 + 1);
                                        if i < j7 <= s.len() {
                                            match spec_object_rest(s, j7) {
                                                Some(p) => Some((seq![(k, v)] + p.0, p.1)),
                                                None => None,
                                            }
                                        } else {
                                            None
                                        }
                                    } else if j6 < s.len() && s[j6] == '}' {
                                        Some((seq![(k, v)], j6 + 1))
                                    } else {
                                        None
                                    }
                                } else {
                                    None
                                }
                            },
                        }
                    } else {
                        None
                    }
                } else {
                    None
                }
            } else {
                None
            }
        },
    }
}

/// A whole body: one value, possibly surrounded by whitespace, with
/// nothing after it; or nothing, where the body is not such a text.
pub open spec fn json_of(s: Seq<char>) -> Option<JsonView> {
    let i = spec_skip_ws(s, 0);
    match spec_parse_value(s, i) {
        Some((v, j)) => if spec_skip_ws(s, j) == s.len() {
            Some(v)
        } else {
            None
        },
        None => None,
    }
}

// ---------------------------------------------------------------------
// The executable parser, proved to agree with the grammar above.
// ---------------------------------------------------------------------

fn chars_of(s: &str) -> (v: Vec<char>)
    ensures
        v@ == s@,
{
    let n = s.unicode_len();
    let mut v: Vec<char> = Vec::new();
    let mut i: usize = 0;
    while i < n
        invariant
            n == s@.len(),
            i <= n,
            v@ == s@.subrange(0, i as int),
        decreases n - i,
    {
        v.push(s.get_char(i));
        proof {
            assert(v@ =~= s@.subrange(0, i + 1));
        }
        i = i + 1;
    }
    proof {
        assert(s@.subrange(0, n as int) =~= s@);
    }
    v
}

fn is_ws(c: char) -> (r: bool)
    ensures
        r == spec_is_ws(c),
{
    c == ' ' || c == '\t' || c == '\n' || c == '\r'
}

fn skip_ws(s: &Vec<char>, i: usize) -> (r: usize)
    requires
        i <= s@.len(),
    ensures
        i <= r <= s@.len(),
        r as int == spec_skip_ws(s@, i as int),
{
    let n = s.len();
    let mut j = i;
    while j < n && is_ws(s[j])
        invariant
            i <= j <= n,
            n == s@.len(),
            spec_skip_ws(s@, i as int) == spec_skip_ws(s@, j as int),
        decreases n - j,
    {
        j = j + 1;
    }
    j
}

fn hex_val(c: char) -> (r: Option<u32>)
    ensures
        r == spec_hex_val(c),
        r matches Some(v) ==> v < 16,
{
    let u = c as u32;
    if 48 <= u && u <= 57 {
        Some(u - 48)
    } else if 97 <= u && u <= 102 {
        Some(u - 97 + 10)
    } else if 65 <= u && u <= 70 {
        Some(u - 65 + 10)
    } else {
        None
    }
}

fn parse_hex4(s: &Vec<char>, i: usize) -> (r: Result<u32, ()>)
    requires
        i + 4 <= s@.len(),
    ensures
        match r {
            Ok(v) => spec_hex4(s@, i as int) == Some(v) && v < 0x10000,
            Err(_) => spec_hex4(s@, i as int) is None,
        },
{
    let n = s.len();
    let a = match hex_val(s[i]) {
        Some(x) => x,
        None => {
            return Err(());
        },
    };
    let b = match hex_val(s[i + 1]) {
        Some(x) => x,
        None => {
            return Err(());
        },
    };
    let c = match hex_val(s[i + 2]) {
        Some(x) => x,
        None => {
            return Err(());
        },
    };
    let d = match hex_val(s[i + 3]) {
        Some(x) => x,
        None => {
            return Err(());
        },
    };
    Ok(4096 * a + 256 * b + 16 * c + d)
}

#[verifier::rlimit(100)]
fn parse_string_body(s: &Vec<char>, i: usize) -> (r: Result<(String, usize), ()>)
    requires
        i <= s@.len(),
    ensures
        match r {
            Ok(p) => spec_string_body(s@, i as int) == Some((p.0@, p.1 as int)) && i < p.1
                <= s@.len(),
            Err(_) => spec_string_body(s@, i as int) is None,
        },
{
    let n = s.len();
    if !(i < n && s[i] == '"') {
        return Err(());
    }
    let mut out = String::new();
    let mut j: usize = i + 1;
    proof {
        if let Some(p) = spec_string_rest(s@, j as int) {
            assert(Seq::<char>::empty() + p.0 =~= p.0);
        }
    }
    while j < n
        invariant
            i < j <= n,
            n == s@.len(),
            s@[i as int] == '"',
            match spec_string_rest(s@, j as int) {
                Some(p) => spec_string_rest(s@, i + 1) == Some((out@ + p.0, p.1)),
                None => spec_string_rest(s@, i + 1) is None,
            },
        decreases n - j,
    {
        let c = s[j];
        if c == '"' {
            proof {
                assert(out@ + Seq::<char>::empty() =~= out@);
            }
            return Ok((out, j + 1));
        }
        if c == '\\' {
            if n - j < 2 {
                return Err(());
            }
            let e = s[j + 1];
            if e == 'u' {
                if n - j < 6 {
                    return Err(());
                }
                let v = match parse_hex4(s, j + 2) {
                    Ok(v) => v,
                    Err(_) => {
                        return Err(());
                    },
                };
                if 0xD800 <= v && v < 0xDC00 {
                    // A high surrogate must pair with a following low
                    // surrogate escape.
                    if n - j < 12 {
                        return Err(());
                    }
                    if !(s[j + 6] == '\\' && s[j + 7] == 'u') {
                        return Err(());
                    }
                    let lo = match parse_hex4(s, j + 8) {
                        Ok(v) => v,
                        Err(_) => {
                            return Err(());
                        },
                    };
                    if !(0xDC00 <= lo && lo < 0xE000) {
                        return Err(());
                    }
                    let code: u32 = 0x10000 + (v - 0xD800) * 0x400 + (lo - 0xDC00);
                    match char::from_u32(code) {
                        Some(ch) => {
                            proof {
                                lemma_char_of(ch, code);
                                if let Some(p) = spec_string_rest(s@, j + 12) {
                                    assert((out@ + (seq![ch] + p.0)) =~= (out@.push(ch) + p.0));
                                }
                            }
                            out.push(ch);
                        },
                        None => {
                            return Err(());
                        },
                    }
                    j = j + 12;
                } else {
                    match char::from_u32(v) {
                        Some(ch) => {
                            proof {
                                lemma_char_of(ch, v);
                                if let Some(p) = spec_string_rest(s@, j + 6) {
                                    assert((out@ + (seq![ch] + p.0)) =~= (out@.push(ch) + p.0));
                                }
                            }
                            out.push(ch);
                        },
                        None => {
                            return Err(());
                        },
                    }
                    j = j + 6;
                }
            } else {
                let unescaped: char = match e {
                    '"' => '"',
                    '\\' => '\\',
                    '/' => '/',
                    'n' => '\n',
                    't' => '\t',
                    'r' => '\r',
                    'b' => '\u{0008}',
                    'f' => '\u{000C}',
                    _ => {
                        return Err(());
                    },
                };
                proof {
                    if let Some(p) = spec_string_rest(s@, j + 2) {
                        assert((out@ + (seq![unescaped] + p.0)) =~= (out@.push(unescaped) + p.0));
                    }
                }
                out.push(unescaped);
                j = j + 2;
            }
        } else {
            proof {
                if let Some(p) = spec_string_rest(s@, j + 1) {
                    assert((out@ + (seq![c] + p.0)) =~= (out@.push(c) + p.0));
                }
            }
            out.push(c);
            j = j + 1;
        }
    }
    Err(())
}

fn is_num_char(c: char) -> (r: bool)
    ensures
        r == spec_is_num_char(c),
{
    let u = c as u32;
    c == '-' || c == '+' || c == '.' || c == 'e' || c == 'E' || (48 <= u && u <= 57)
}

fn parse_number(s: &Vec<char>, i: usize) -> (r: Result<(String, usize), ()>)
    requires
        i <= s@.len(),
    ensures
        match r {
            Ok(p) => spec_parse_number(s@, i as int) == Some((p.0@, p.1 as int)) && i < p.1
                <= s@.len(),
            Err(_) => spec_parse_number(s@, i as int) is None,
        },
{
    let n = s.len();
    let mut out = String::new();
    let mut j: usize = i;
    proof {
        assert(Seq::<char>::empty() + spec_num_rest(s@, i as int).0 =~= spec_num_rest(
            s@,
            i as int,
        ).0);
    }
    while j < n && is_num_char(s[j])
        invariant
            i <= j <= n,
            n == s@.len(),
            spec_num_rest(s@, i as int).0 == out@ + spec_num_rest(s@, j as int).0,
            spec_num_rest(s@, i as int).1 == spec_num_rest(s@, j as int).1,
        decreases n - j,
    {
        proof {
            let p = spec_num_rest(s@, j + 1);
            assert((out@ + (seq![s@[j as int]] + p.0)) =~= (out@.push(s@[j as int]) + p.0));
        }
        out.push(s[j]);
        j = j + 1;
    }
    proof {
        assert(spec_num_rest(s@, j as int) == (Seq::<char>::empty(), j as int));
        assert(out@ + Seq::<char>::empty() =~= out@);
    }
    if j == i {
        Err(())
    } else {
        Ok((out, j))
    }
}

fn parse_value(s: &Vec<char>, i: usize) -> (r: Result<(Json, usize), ()>)
    requires
        i <= s@.len(),
    ensures
        match r {
            Ok(p) => spec_parse_value(s@, i as int) == Some((p.0.view(), p.1 as int)) && i < p.1
                <= s@.len(),
            Err(_) => spec_parse_value(s@, i as int) is None,
        },
    decreases s@.len() - i, 0int,
{
    let n = s.len();
    if i >= n {
        return Err(());
    }
    let c = s[i];
    if c == 'n' {
        if n - i >= 4 && s[i + 1] == 'u' && s[i + 2] == 'l' && s[i + 3] == 'l' {
            Ok((Json::Null, i + 4))
        } else {
            Err(())
        }
    } else if c == 't' {
        if n - i >= 4 && s[i + 1] == 'r' && s[i + 2] == 'u' && s[i + 3] == 'e' {
            Ok((Json::Bool(true), i + 4))
        } else {
            Err(())
        }
    } else if c == 'f' {
        if n - i >= 5 && s[i + 1] == 'a' && s[i + 2] == 'l' && s[i + 3] == 's' && s[i + 4] == 'e' {
            Ok((Json::Bool(false), i + 5))
        } else {
            Err(())
        }
    } else if c == '"' {
        match parse_string_body(s, i) {
            Ok((t, j)) => Ok((Json::Str(t), j)),
            Err(_) => Err(()),
        }
    } else if c == '[' {
        let j = skip_ws(s, i + 1);
        let mut items: Vec<Json> = Vec::new();
        if j < n && s[j] == ']' {
            proof {
                lemma_arr_view(items);
                assert(views_of(items@) =~= Seq::<JsonView>::empty());
            }
            return Ok((Json::Arr(items), j + 1));
        }
        match parse_array_rest(s, j, &mut items) {
            Ok(k) => {
                proof {
                    lemma_arr_view(items);
                    assert(views_of(Seq::<Json>::empty()) + spec_array_rest(
                        s@,
                        j as int,
                    )->Some_0.0 =~= spec_array_rest(s@, j as int)->Some_0.0);
                }
                Ok((Json::Arr(items), k))
            },
            Err(_) => Err(()),
        }
    } else if c == '{' {
        let j = skip_ws(s, i + 1);
        let mut fields: Vec<(String, Json)> = Vec::new();
        if j < n && s[j] == '}' {
            proof {
                lemma_obj_view(fields);
                assert(fields_view(fields@) =~= Seq::<(Seq<char>, JsonView)>::empty());
            }
            return Ok((Json::Obj(fields), j + 1));
        }
        match parse_object_rest(s, j, &mut fields) {
            Ok(k) => {
                proof {
                    lemma_obj_view(fields);
                    assert(fields_view(Seq::<(String, Json)>::empty()) + spec_object_rest(
                        s@,
                        j as int,
                    )->Some_0.0 =~= spec_object_rest(s@, j as int)->Some_0.0);
                }
                Ok((Json::Obj(fields), k))
            },
            Err(_) => Err(()),
        }
    } else if c == '-' || is_num_char(c) {
        match parse_number(s, i) {
            Ok((t, j)) => Ok((Json::Num(t), j)),
            Err(_) => Err(()),
        }
    } else {
        Err(())
    }
}

fn parse_array_rest(s: &Vec<char>, i: usize, items: &mut Vec<Json>) -> (r: Result<usize, ()>)
    requires
        i <= s@.len(),
    ensures
        match spec_array_rest(s@, i as int) {
            Some(p) => r matches Ok(j) && j as int == p.1 && i < j <= s@.len() && views_of(
                final(items)@,
            ) == views_of(old(items)@) + p.0,
            None => r is Err,
        },
    decreases s@.len() - i, 1int,
{
    let n = s.len();
    match parse_value(s, i) {
        Err(_) => Err(()),
        Ok((v, j2)) => {
            proof {
                assert(views_of(old(items)@.push(v)) =~= views_of(old(items)@).push(v.view()));
            }
            items.push(v);
            let j3 = skip_ws(s, j2);
            if j3 < n && s[j3] == ',' {
                let j4 = skip_ws(s, j3 + 1);
                match parse_array_rest(s, j4, items) {
                    Ok(k) => {
                        proof {
                            if let Some(p) = spec_array_rest(s@, j4 as int) {
                                assert(views_of(old(items)@) + (seq![
                                    spec_parse_value(s@, i as int)->Some_0.0,
                                ] + p.0) =~= (views_of(old(items)@).push(
                                    spec_parse_value(s@, i as int)->Some_0.0,
                                ) + p.0));
                            }
                        }
                        Ok(k)
                    },
                    Err(_) => Err(()),
                }
            } else if j3 < n && s[j3] == ']' {
                proof {
                    assert(views_of(old(items)@) + seq![
                        spec_parse_value(s@, i as int)->Some_0.0,
                    ] =~= views_of(old(items)@).push(spec_parse_value(s@, i as int)->Some_0.0));
                }
                Ok(j3 + 1)
            } else {
                Err(())
            }
        },
    }
}

fn parse_object_rest(s: &Vec<char>, i: usize, fields: &mut Vec<(String, Json)>) -> (r: Result<
    usize,
    (),
>)
    requires
        i <= s@.len(),
    ensures
        match spec_object_rest(s@, i as int) {
            Some(p) => r matches Ok(j) && j as int == p.1 && i < j <= s@.len() && fields_view(
                final(fields)@,
            ) == fields_view(old(fields)@) + p.0,
            None => r is Err,
        },
    decreases s@.len() - i, 1int,
{
    let n = s.len();
    if !(i < n && s[i] == '"') {
        return Err(());
    }
    match parse_string_body(s, i) {
        Err(_) => Err(()),
        Ok((k, j2)) => {
            let j3 = skip_ws(s, j2);
            if !(j3 < n && s[j3] == ':') {
                return Err(());
            }
            let j4 = skip_ws(s, j3 + 1);
            match parse_value(s, j4) {
                Err(_) => Err(()),
                Ok((v, j5)) => {
                    proof {
                        assert(fields_view(old(fields)@.push((k, v))) =~= fields_view(
                            old(fields)@,
                        ).push((k@, v.view())));
                    }
                    let ghost kv = (k@, v.view());
                    fields.push((k, v));
                    let j6 = skip_ws(s, j5);
                    proof {
                        assert(j4 < j5 <= s@.len());
                    }
                    if j6 < n && s[j6] == ',' {
                        let j7 = skip_ws(s, j6 + 1);
                        match parse_object_rest(s, j7, fields) {
                            Ok(m) => {
                                proof {
                                    if let Some(p) = spec_object_rest(s@, j7 as int) {
                                        assert(fields_view(old(fields)@) + (seq![kv] + p.0)
                                            =~= (fields_view(old(fields)@).push(kv) + p.0));
                                    }
                                }
                                Ok(m)
                            },
                            Err(_) => Err(()),
                        }
                    } else if j6 < n && s[j6] == '}' {
                        proof {
                            assert(fields_view(old(fields)@) + seq![kv] =~= fields_view(
                                old(fields)@,
                            ).push(kv));
                        }
                        Ok(j6 + 1)
                    } else {
                        Err(())
                    }
                },
            }
        },
    }
}

/// Parses a whole response body: exactly the value that [`json_of`] gives
/// the body's characters, or nothing where `json_of` gives nothing.
pub fn parse_json(body: &str) -> (r: Result<Json, ()>)
    ensures
        match r {
            Ok(j) => json_of(body@) == Some(j.view()),
            Err(_) => json_of(body@) is None,
        },
{
    let s = chars_of(body);
    let i = skip_ws(&s, 0);
    match parse_value(&s, i) {
        Err(_) => Err(()),
        Ok((v, j)) => {
            let k = skip_ws(&s, j);
            if k == s.len() {
                Ok(v)
            } else {
                Err(())
            }
        },
    }
}

} // verus!
