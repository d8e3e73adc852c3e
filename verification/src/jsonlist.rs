//! The JSON encoding of a household's resident list.
//!
//! A household row persists its ordered list of resident references as one
//! TEXT cell holding a JSON array of strings. Encoding and decoding that
//! cell is this module's job, fully verified: the encoder emits the
//! canonical form (no whitespace, the two JSON metacharacters and control
//! characters escaped), the decoder reads that grammar back along with
//! whitespace between tokens and any basic-plane `\uXXXX` escape (an
//! astral character written as a surrogate pair stays outside the
//! grammar), and a proved round trip ties the two together.

use vstd::prelude::*;

verus! {

/// The lower-case hexadecimal digit of `d`.
pub open spec fn hex_digit(d: int) -> char {
    if d < 10 {
        (48 + d) as char
    } else {
        (87 + d) as char
    }
}

/// The value of a hexadecimal digit, either case.
pub open spec fn hex_val(c: char) -> Option<int> {
    if '0' <= c && c <= '9' {
        Some(c as int - 48)
    } else if 'a' <= c && c <= 'f' {
        Some(c as int - 87)
    } else if 'A' <= c && c <= 'F' {
        Some(c as int - 55)
    } else {
        None
    }
}

/// How one character appears inside a JSON string: the quote and the
/// backslash escaped, the named control characters short-escaped, every
/// other control character hex-escaped, everything else verbatim.
pub open spec fn esc_char(c: char) -> Seq<char> {
    if c == '"' {
        seq!['\\', '"']
    } else if c == '\\' {
        seq!['\\', '\\']
    } else if c == '\u{8}' {
        seq!['\\', 'b']
    } else if c == '\u{9}' {
        seq!['\\', 't']
    } else if c == '\u{a}' {
        seq!['\\', 'n']
    } else if c == '\u{c}' {
        seq!['\\', 'f']
    } else if c == '\u{d}' {
        seq!['\\', 'r']
    } else if (c as int) < 0x20 {
        seq!['\\', 'u', '0', '0', hex_digit(c as int / 16), hex_digit(c as int % 16)]
    } else {
        seq![c]
    }
}

/// A whole string, escaped character by character.
pub open spec fn esc(s: Seq<char>) -> Seq<char>
    decreases s.len(),
{
    if s.len() == 0 {
        Seq::empty()
    } else {
        esc_char(s[0]) + esc(s.skip(1))
    }
}

/// A JSON string: the escaped content between quotes.
pub open spec fn json_string(s: Seq<char>) -> Seq<char> {
    seq!['"'] + esc(s) + seq!['"']
}

/// The comma-separated JSON strings of a list; empty for an empty list.
pub open spec fn json_items(l: Seq<Seq<char>>) -> Seq<char>
    decreases l.len(),
{
    if l.len() == 0 {
        Seq::empty()
    } else if l.len() == 1 {
        json_string(l[0])
    } else {
        json_string(l[0]) + seq![','] + json_items(l.skip(1))
    }
}

/// The canonical JSON array of a list of strings.
pub open spec fn json_list(l: Seq<Seq<char>>) -> Seq<char> {
    seq!['['] + json_items(l) + seq![']']
}

/// What an escape letter after a backslash stands for; the hex escape is
/// handled separately.
pub open spec fn unescape(e: char) -> Option<char> {
    if e == '"' {
        Some('"')
    } else if e == '\\' {
        Some('\\')
    } else if e == '/' {
        Some('/')
    } else if e == 'b' {
        Some('\u{8}')
    } else if e == 't' {
        Some('\u{9}')
    } else if e == 'n' {
        Some('\u{a}')
    } else if e == 'f' {
        Some('\u{c}')
    } else if e == 'r' {
        Some('\u{d}')
    } else {
        None
    }
}

/// The whitespace JSON allows between tokens.
pub open spec fn is_ws(c: char) -> bool {
    c == ' ' || c == '\t' || c == '\n' || c == '\r'
}

/// The input with its leading whitespace dropped.
pub open spec fn skip_ws(s: Seq<char>) -> Seq<char>
    decreases s.len(),
{
    if s.len() > 0 && is_ws(s[0]) {
        skip_ws(s.skip(1))
    } else {
        s
    }
}

/// Dropping whitespace never lengthens the input.
pub proof fn lemma_skip_ws_len(s: Seq<char>)
    ensures
        skip_ws(s).len() <= s.len(),
    decreases s.len(),
{
    if s.len() > 0 && is_ws(s[0]) {
        lemma_skip_ws_len(s.skip(1));
    }
}

/// Reads a JSON string after its opening quote: the content, and what
/// follows the closing quote. Accepts the named escapes and any `\uXXXX`
/// escape of a basic-plane scalar value; a raw control character, an
/// unknown escape, a surrogate escape, or a missing closing quote is
/// malformed.
pub open spec fn parse_string_body(s: Seq<char>) -> Option<(Seq<char>, Seq<char>)>
    decreases s.len(),
{
    if s.len() == 0 {
        None
    } else if s[0] == '"' {
        Some((Seq::empty(), s.skip(1)))
    } else if s[0] == '\\' {
        if s.len() < 2 {
            None
        } else if s[1] == 'u' {
            if s.len() < 6 {
                None
            } else {
                match (hex_val(s[2]), hex_val(s[3]), hex_val(s[4]), hex_val(s[5])) {
                    (Some(h1), Some(h2), Some(h3), Some(h4)) => {
                        let v = ((h1 * 16 + h2) * 16 + h3) * 16 + h4;
                        if v < 0xD800 || 0xE000 <= v {
                            match parse_string_body(s.skip(6)) {
                                Some((content, rest)) => Some((seq![v as char] + content, rest)),
                                None => None,
                            }
                        } else {
                            None
                        }
                    },
                    _ => None,
                }
            }
        } else {
            match unescape(s[1]) {
                Some(c) => match parse_string_body(s.skip(2)) {
                    Some((content, rest)) => Some((seq![c] + content, rest)),
                    None => None,
                },
                None => None,
            }
        }
    } else if (s[0] as int) < 0x20 {
        None
    } else {
        match parse_string_body(s.skip(1)) {
            Some((content, rest)) => Some((seq![s[0]] + content, rest)),
            None => None,
        }
    }
}

/// A parsed string body ends strictly inside its input.
pub proof fn lemma_parse_string_body_consumes(s: Seq<char>)
    requires
        parse_string_body(s) is Some,
    ensures
        parse_string_body(s).unwrap().1.len() < s.len(),
    decreases s.len(),
{
    if s[0] == '"' {
    } else if s[0] == '\\' {
        if s[1] == 'u' {
            lemma_parse_string_body_consumes(s.skip(6));
        } else {
            lemma_parse_string_body_consumes(s.skip(2));
        }
    } else {
        lemma_parse_string_body_consumes(s.skip(1));
    }
}

/// Reads one or more JSON strings up to and including the closing bracket,
/// whitespace between tokens allowed: the strings, and what follows the
/// bracket.
pub open spec fn parse_items(s: Seq<char>) -> Option<(Seq<Seq<char>>, Seq<char>)>
    decreases s.len(),
    via parse_items_decreases
{
    let s1 = skip_ws(s);
    if s1.len() == 0 || s1[0] != '"' {
        None
    } else {
        match parse_string_body(s1.skip(1)) {
            Some((e, rest0)) => {
                let rest = skip_ws(rest0);
                if rest.len() == 0 {
                    None
                } else if rest[0] == ',' {
                    match parse_items(rest.skip(1)) {
                        Some((l, rest2)) => Some((seq![e] + l, rest2)),
                        None => None,
                    }
                } else if rest[0] == ']' {
                    Some((seq![e], rest.skip(1)))
                } else {
                    None
                }
            },
            None => None,
        }
    }
}

#[via_fn]
proof fn parse_items_decreases(s: Seq<char>) {
    lemma_skip_ws_len(s);
    let s1 = skip_ws(s);
    if s1.len() > 0 && s1[0] == '"' && parse_string_body(s1.skip(1)) is Some {
        lemma_parse_string_body_consumes(s1.skip(1));
        lemma_skip_ws_len(parse_string_body(s1.skip(1)).unwrap().1);
    }
}

/// Reads a whole JSON array of strings, whitespace around the tokens
/// allowed; anything but exactly one array is malformed.
pub open spec fn parse_string_list(s: Seq<char>) -> Option<Seq<Seq<char>>> {
    let s0 = skip_ws(s);
    if s0.len() >= 1 && s0[0] == '[' {
        let s1 = skip_ws(s0.skip(1));
        if s1.len() >= 1 && s1[0] == ']' && skip_ws(s1.skip(1)).len() == 0 {
            Some(Seq::empty())
        } else {
            match parse_items(s0.skip(1)) {
                Some((l, rest)) => {
                    if skip_ws(rest).len() == 0 {
                        Some(l)
                    } else {
                        None
                    }
                },
                None => None,
            }
        }
    } else {
        None
    }
}

/// A hexadecimal digit reads back as its value.
proof fn lemma_hex_roundtrip(d: int)
    requires
        0 <= d < 16,
    ensures
        hex_val(hex_digit(d)) == Some(d),
{
}

/// Escaping one more character appends its escape.
proof fn lemma_esc_push(t: Seq<char>, c: char)
    ensures
        esc(t.push(c)) == esc(t) + esc_char(c),
    decreases t.len(),
{
    if t.len() == 0 {
        assert(t.push(c)[0] == c);
        assert(t.push(c).skip(1) =~= Seq::<char>::empty());
        assert(esc(Seq::<char>::empty()) =~= Seq::<char>::empty());
        assert(esc(t.push(c)) == esc_char(c) + esc(t.push(c).skip(1)));
        assert(esc_char(c) + Seq::<char>::empty() =~= Seq::<char>::empty() + esc_char(c));
    } else {
        assert(t.push(c)[0] == t[0]);
        assert(t.push(c).skip(1) =~= t.skip(1).push(c));
        lemma_esc_push(t.skip(1), c);
        assert(esc(t.push(c)) == esc_char(t[0]) + esc(t.skip(1).push(c)));
        assert(esc(t.skip(1).push(c)) == esc(t.skip(1)) + esc_char(c));
        assert(esc_char(t[0]) + (esc(t.skip(1)) + esc_char(c)) =~= (esc_char(t[0]) + esc(t.skip(1)))
            + esc_char(c));
    }
}

/// Appending one more string appends its JSON form, after a comma when the
/// list was not empty.
proof fn lemma_json_items_push(l: Seq<Seq<char>>, s: Seq<char>)
    ensures
        json_items(l.push(s)) == (if l.len() == 0 {
            json_string(s)
        } else {
            json_items(l) + seq![','] + json_string(s)
        }),
    decreases l.len(),
{
    if l.len() == 0 {
        assert(l.push(s)[0] == s);
    } else if l.len() == 1 {
        assert(l.push(s)[0] == l[0]);
        assert(l.push(s).skip(1) =~= seq![s]);
        assert(json_items(seq![s]) == json_string(s));
        assert(json_items(l.push(s)) =~= json_items(l) + seq![','] + json_string(s));
    } else {
        assert(l.push(s)[0] == l[0]);
        assert(l.push(s).skip(1) =~= l.skip(1).push(s));
        lemma_json_items_push(l.skip(1), s);
        assert(json_items(l.push(s)) =~= json_items(l) + seq![','] + json_string(s));
    }
}

/// The parser undoes the escape of one character, whatever well-formed
/// string body follows it.
proof fn lemma_parse_esc_char(c: char, s2: Seq<char>, t2: Seq<char>, rest: Seq<char>)
    requires
        parse_string_body(s2) == Some((t2, rest)),
    ensures
        parse_string_body(esc_char(c) + s2) == Some((seq![c] + t2, rest)),
{
    let s = esc_char(c) + s2;
    if c == '"' || c == '\\' || c == '\u{8}' || c == '\u{9}' || c == '\u{a}' || c == '\u{c}' || c
        == '\u{d}' {
        let e = esc_char(c);
        assert(e.len() == 2 && e[0] == '\\' && e[1] != 'u');
        assert(s[0] == '\\' && s[1] == e[1]);
        assert(unescape(e[1]) == Some(c));
        assert(s.skip(2) =~= s2);
    } else if (c as int) < 0x20 {
        let hi = c as int / 16;
        let lo = c as int % 16;
        assert(0 <= hi < 16 && 0 <= lo < 16);
        assert(s[0] == '\\' && s[1] == 'u' && s[2] == '0' && s[3] == '0' && s[4] == hex_digit(hi)
            && s[5] == hex_digit(lo));
        assert(hex_val('0') == Some(0int));
        lemma_hex_roundtrip(hi);
        lemma_hex_roundtrip(lo);
        assert(hi * 16 + lo == c as int);
        assert(((c as int) as char) == c);
        assert(s.skip(6) =~= s2);
    } else {
        assert(s[0] == c);
        assert(s.skip(1) =~= s2);
    }
}

/// The parser reads an escaped string back exactly, leaving whatever
/// follows the closing quote untouched.
proof fn lemma_parse_escaped(t: Seq<char>, rest: Seq<char>)
    ensures
        parse_string_body(esc(t) + seq!['"'] + rest) == Some((t, rest)),
    decreases t.len(),
{
    if t.len() == 0 {
        let s = esc(t) + seq!['"'] + rest;
        assert(esc(t) =~= Seq::<char>::empty());
        assert(s[0] == '"');
        assert(s.skip(1) =~= rest);
    } else {
        let c = t[0];
        let s2 = esc(t.skip(1)) + seq!['"'] + rest;
        lemma_parse_escaped(t.skip(1), rest);
        lemma_parse_esc_char(c, s2, t.skip(1), rest);
        assert(esc(t) + seq!['"'] + rest =~= esc_char(c) + s2);
        assert(seq![c] + t.skip(1) =~= t);
    }
}

/// The parser reads a non-empty item list back exactly, consuming the
/// closing bracket.
proof fn lemma_parse_items_roundtrip(l: Seq<Seq<char>>)
    requires
        l.len() >= 1,
    ensures
        parse_items(json_items(l) + seq![']']) == Some((l, Seq::<char>::empty())),
    decreases l.len(),
{
    let s = json_items(l) + seq![']'];
    if l.len() == 1 {
        assert(s[0] == '"');
        assert(skip_ws(s) == s);
        lemma_parse_escaped(l[0], seq![']']);
        assert(s.skip(1) =~= esc(l[0]) + seq!['"'] + seq![']']);
        assert(skip_ws(seq![']']) == seq![']']);
        assert(seq![']'].skip(1) =~= Seq::<char>::empty());
        assert(seq![l[0]] =~= l);
    } else {
        let rest0 = seq![','] + json_items(l.skip(1)) + seq![']'];
        assert(s[0] == '"');
        assert(skip_ws(s) == s);
        lemma_parse_escaped(l[0], rest0);
        assert(s.skip(1) =~= esc(l[0]) + seq!['"'] + rest0);
        assert(rest0[0] == ',');
        assert(skip_ws(rest0) == rest0);
        assert(rest0.skip(1) =~= json_items(l.skip(1)) + seq![']']);
        lemma_parse_items_roundtrip(l.skip(1));
        assert(seq![l[0]] + l.skip(1) =~= l);
    }
}

/// The characters of a string slice, in order.
pub fn str_to_chars(s: &str) -> (r: Vec<char>)
    ensures
        r@ == s@,
{
    let n = s.unicode_len();
    let mut v: Vec<char> = Vec::new();
    let mut i: usize = 0;
    while i < n
        invariant
            i <= n,
            n == s@.len(),
            v@ == s@.subrange(0, i as int),
        decreases n - i,
    {
        let c = s.get_char(i);
        v.push(c);
        assert(v@ =~= s@.subrange(0, i as int + 1));
        i = i + 1;
    }
    assert(v@ =~= s@);
    v
}

/// Relies on `String`'s `FromIterator` over `char`: collecting yields the
/// string of exactly the given characters, in order.
#[verifier::external_body]
pub fn chars_to_string(v: &Vec<char>) -> (r: String)
    ensures
        r@ == v@,
{
    v.iter().collect()
}

fn hex_digit_char(d: u8) -> (r: char)
    requires
        d < 16,
    ensures
        r == hex_digit(d as int),
{
    if d < 10 {
        (48 + d) as char
    } else {
        (87 + d) as char
    }
}

fn push_escaped(out: &mut Vec<char>, c: char)
    ensures
        final(out)@ == old(out)@ + esc_char(c),
{
    if c == '"' {
        out.push('\\');
        out.push('"');
    } else if c == '\\' {
        out.push('\\');
        out.push('\\');
    } else if c == '\u{8}' {
        out.push('\\');
        out.push('b');
    } else if c == '\u{9}' {
        out.push('\\');
        out.push('t');
    } else if c == '\u{a}' {
        out.push('\\');
        out.push('n');
    } else if c == '\u{c}' {
        out.push('\\');
        out.push('f');
    } else if c == '\u{d}' {
        out.push('\\');
        out.push('r');
    } else if (c as u32) < 0x20 {
        out.push('\\');
        out.push('u');
        out.push('0');
        out.push('0');
        let x = c as u32;
        out.push(hex_digit_char((x / 16) as u8));
        out.push(hex_digit_char((x % 16) as u8));
    } else {
        out.push(c);
    }
    assert(out@ =~= old(out)@ + esc_char(c));
}

/// Encodes a list of strings as its canonical JSON array.
pub fn encode_string_list(items: &Vec<String>) -> (r: String)
    ensures
        r@ == json_list(items.deep_view()),
{
    let ghost l = items.deep_view();
    let mut out: Vec<char> = Vec::new();
    out.push('[');
    proof {
        assert(json_items(l.take(0)) =~= Seq::<char>::empty());
        assert(out@ =~= seq!['['] + json_items(l.take(0)));
    }
    let mut i: usize = 0;
    while i < items.len()
        invariant
            i <= items.len(),
            l == items.deep_view(),
            out@ == seq!['['] + json_items(l.take(i as int)),
        decreases items.len() - i,
    {
        if i > 0 {
            out.push(',');
        }
        out.push('"');
        let ghost head = out@;
        let s: &String = &items[i];
        proof {
            assert(l[i as int] == s@);
        }
        let n = s.as_str().unicode_len();
        let mut j: usize = 0;
        while j < n
            invariant
                j <= n,
                n == s@.len(),
                out@ == head + esc(s@.take(j as int)),
            decreases n - j,
        {
            let c = s.as_str().get_char(j);
            push_escaped(&mut out, c);
            proof {
                lemma_esc_push(s@.take(j as int), c);
                assert(s@.take(j as int).push(c) =~= s@.take(j as int + 1));
                assert(esc(Seq::<char>::empty()) =~= Seq::<char>::empty());
                assert(head + esc(s@.take(j as int)) + esc_char(c) =~= head + (esc(
                    s@.take(j as int),
                ) + esc_char(c)));
            }
            j = j + 1;
        }
        out.push('"');
        proof {
            assert(s@.take(n as int) =~= s@);
            lemma_json_items_push(l.take(i as int), l[i as int]);
            assert(l.take(i as int).push(l[i as int]) =~= l.take(i as int + 1));
            assert(out@ =~= seq!['['] + json_items(l.take(i as int + 1)));
        }
        i = i + 1;
    }
    out.push(']');
    proof {
        assert(l.take(items.len() as int) =~= l);
        assert(out@ =~= json_list(l));
    }
    chars_to_string(&out)
}

fn hex_val_char(c: char) -> (r: Option<u8>)
    ensures
        match r {
            Some(x) => hex_val(c) == Some(x as int) && x < 16,
            None => hex_val(c) is None,
        },
{
    let x = c as u32;
    if 48 <= x && x <= 57 {
        Some((x - 48) as u8)
    } else if 97 <= x && x <= 102 {
        Some((x - 87) as u8)
    } else if 65 <= x && x <= 70 {
        Some((x - 55) as u8)
    } else {
        None
    }
}

fn unescape_char(e: char) -> (r: Option<char>)
    ensures
        r == unescape(e),
{
    if e == '"' {
        Some('"')
    } else if e == '\\' {
        Some('\\')
    } else if e == '/' {
        Some('/')
    } else if e == 'b' {
        Some('\u{8}')
    } else if e == 't' {
        Some('\u{9}')
    } else if e == 'n' {
        Some('\u{a}')
    } else if e == 'f' {
        Some('\u{c}')
    } else if e == 'r' {
        Some('\u{d}')
    } else {
        None
    }
}

fn char_code(c: char) -> (r: u32)
    ensures
        r as int == c as int,
{
    c as u32
}

/// Relies on `char::from_u32`: it returns the character of exactly the
/// given code, and returns one for every unicode scalar value — every code
/// point outside the surrogate range and at most the maximum.
#[verifier::external_body]
fn char_from_code(v: u32) -> (r: Option<char>)
    ensures
        match r {
            Some(c) => c as int == v as int,
            None => !(v < 0xD800 || (0xE000 <= v && v <= 0x10FFFF)),
        },
{
    char::from_u32(v)
}

fn is_ws_char(c: char) -> (r: bool)
    ensures
        r == is_ws(c),
{
    let x = c as u32;
    x == 0x20 || x == 0x9 || x == 0xA || x == 0xD
}

fn skip_ws_at(s: &Vec<char>, start: usize) -> (r: usize)
    requires
        start <= s@.len(),
    ensures
        start <= r <= s@.len(),
        s@.skip(r as int) == skip_ws(s@.skip(start as int)),
{
    let mut i = start;
    loop
        invariant
            start <= i <= s@.len(),
            skip_ws(s@.skip(start as int)) == skip_ws(s@.skip(i as int)),
        decreases s@.len() - i,
    {
        if i >= s.len() {
            proof {
                assert(s@.skip(i as int) =~= Seq::<char>::empty());
            }
            return i;
        }
        let c = s[i];
        proof {
            assert(s@.skip(i as int)[0] == c);
        }
        if is_ws_char(c) {
            proof {
                assert(s@.skip(i as int).skip(1) =~= s@.skip(i as int + 1));
            }
            i = i + 1;
        } else {
            return i;
        }
    }
}

fn parse_string_body_at(s: &Vec<char>, start: usize) -> (r: Option<(Vec<char>, usize)>)
    requires
        start <= s@.len(),
    ensures
        match r {
            Some(p) => start < p.1 <= s@.len() && parse_string_body(s@.skip(start as int)) == Some(
                (p.0@, s@.skip(p.1 as int)),
            ),
            None => parse_string_body(s@.skip(start as int)) is None,
        },
{
    let mut content: Vec<char> = Vec::new();
    let mut i: usize = start;
    loop
        invariant
            start <= i <= s@.len(),
            parse_string_body(s@.skip(start as int)) == (match parse_string_body(
                s@.skip(i as int),
            ) {
                Some((c2, rest)) => Some((content@ + c2, rest)),
                None => None::<(Seq<char>, Seq<char>)>,
            }),
        decreases s@.len() - i,
    {
        if i >= s.len() {
            proof {
                assert(s@.skip(i as int) =~= Seq::<char>::empty());
            }
            return None;
        }
        let ghost suffix = s@.skip(i as int);
        let c = s[i];
        proof {
            assert(suffix[0] == c);
        }
        if c == '"' {
            proof {
                assert(suffix.skip(1) =~= s@.skip(i as int + 1));
                assert(content@ + Seq::<char>::empty() =~= content@);
            }
            return Some((content, i + 1));
        } else if c == '\\' {
            if i + 1 >= s.len() {
                proof {
                    assert(suffix.len() < 2);
                }
                return None;
            }
            let e = s[i + 1];
            proof {
                assert(suffix[1] == e);
            }
            if e == 'u' {
                if s.len() - i < 6 {
                    proof {
                        assert(suffix.len() < 6);
                    }
                    return None;
                }
                proof {
                    assert(suffix.len() >= 6);
                    assert(suffix[2] == s@[i as int + 2]);
                    assert(suffix[3] == s@[i as int + 3]);
                    assert(suffix[4] == s@[i as int + 4]);
                    assert(suffix[5] == s@[i as int + 5]);
                }
                let h1 = match hex_val_char(s[i + 2]) {
                    Some(x) => x,
                    None => { return None },
                };
                let h2 = match hex_val_char(s[i + 3]) {
                    Some(x) => x,
                    None => { return None },
                };
                let h3 = match hex_val_char(s[i + 4]) {
                    Some(x) => x,
                    None => { return None },
                };
                let h4 = match hex_val_char(s[i + 5]) {
                    Some(x) => x,
                    None => { return None },
                };
                let ghost vs = ((hex_val(suffix[2]).unwrap() * 16 + hex_val(suffix[3]).unwrap())
                    * 16 + hex_val(suffix[4]).unwrap()) * 16 + hex_val(suffix[5]).unwrap();
                let v: u32 = ((h1 as u32 * 16 + h2 as u32) * 16 + h3 as u32) * 16 + h4 as u32;
                proof {
                    assert(v as int == vs);
                }
                if 0xD800 <= v && v < 0xE000 {
                    return None;
                }
                let u = match char_from_code(v) {
                    Some(x) => x,
                    None => {
                        proof {
                            assert(false);
                        }
                        return None;
                    },
                };
                let ghost before = content@;
                content.push(u);
                proof {
                    assert(u as int == vs);
                    assert(u == (vs as char));
                    assert(suffix.skip(6) =~= s@.skip(i as int + 6));
                    if parse_string_body(s@.skip(i as int + 6)) is Some {
                        let (c2, _rest) = parse_string_body(s@.skip(i as int + 6)).unwrap();
                        assert(parse_string_body(suffix) == Some((seq![u] + c2, _rest)));
                        assert(before + (seq![u] + c2) =~= content@ + c2);
                    }
                }
                i = i + 6;
            } else {
                let u = match unescape_char(e) {
                    Some(x) => x,
                    None => { return None },
                };
                let ghost before = content@;
                content.push(u);
                proof {
                    assert(suffix.skip(2) =~= s@.skip(i as int + 2));
                    if parse_string_body(s@.skip(i as int + 2)) is Some {
                        let (c2, _rest) = parse_string_body(s@.skip(i as int + 2)).unwrap();
                        assert(before + (seq![u] + c2) =~= content@ + c2);
                    }
                }
                i = i + 2;
            }
        } else if char_code(c) < 0x20 {
            proof {
                assert((c as int) < 0x20);
                assert(parse_string_body(suffix) is None);
            }
            return None;
        } else {
            let ghost before = content@;
            content.push(c);
            proof {
                assert(!((c as int) < 0x20));
                assert(suffix.skip(1) =~= s@.skip(i as int + 1));
                if parse_string_body(s@.skip(i as int + 1)) is Some {
                    let (c2, _rest) = parse_string_body(s@.skip(i as int + 1)).unwrap();
                    assert(before + (seq![c] + c2) =~= content@ + c2);
                }
            }
            i = i + 1;
        }
    }
}

fn parse_items_at(s: &Vec<char>, start: usize) -> (r: Option<(Vec<String>, usize)>)
    requires
        start <= s@.len(),
    ensures
        match r {
            Some(p) => p.1 <= s@.len() && parse_items(s@.skip(start as int)) == Some(
                (p.0.deep_view(), s@.skip(p.1 as int)),
            ),
            None => parse_items(s@.skip(start as int)) is None,
        },
{
    let mut items: Vec<String> = Vec::new();
    let mut i: usize = start;
    loop
        invariant
            start <= i <= s@.len(),
            parse_items(s@.skip(start as int)) == (match parse_items(s@.skip(i as int)) {
                Some((l, rest)) => Some((items.deep_view() + l, rest)),
                None => None::<(Seq<Seq<char>>, Seq<char>)>,
            }),
        decreases s@.len() - i,
    {
        let i2 = skip_ws_at(s, i);
        let ghost s1 = s@.skip(i2 as int);
        proof {
            assert(s1 == skip_ws(s@.skip(i as int)));
        }
        if i2 >= s.len() {
            proof {
                assert(s1 =~= Seq::<char>::empty());
            }
            return None;
        }
        if s[i2] != '"' {
            proof {
                assert(s1[0] == s@[i2 as int]);
            }
            return None;
        }
        proof {
            assert(s1[0] == '"');
            assert(s1.skip(1) =~= s@.skip(i2 as int + 1));
        }
        let (body, j) = match parse_string_body_at(s, i2 + 1) {
            Some(p) => p,
            None => { return None },
        };
        let j2 = skip_ws_at(s, j);
        let ghost rest = s@.skip(j2 as int);
        proof {
            assert(rest == skip_ws(s@.skip(j as int)));
        }
        if j2 >= s.len() {
            proof {
                assert(rest.len() == 0);
            }
            return None;
        }
        proof {
            assert(rest[0] == s@[j2 as int]);
        }
        let ch = s[j2];
        let item = chars_to_string(&body);
        let ghost items_before = items.deep_view();
        if ch == ',' {
            items.push(item);
            proof {
                assert(items.deep_view() =~= items_before.push(body@));
                assert(rest.skip(1) =~= s@.skip(j2 as int + 1));
                if parse_items(s@.skip(j2 as int + 1)) is Some {
                    let (l2, _r2) = parse_items(s@.skip(j2 as int + 1)).unwrap();
                    assert(items_before + (seq![body@] + l2) =~= items.deep_view() + l2);
                }
            }
            i = j2 + 1;
        } else if ch == ']' {
            items.push(item);
            proof {
                assert(items.deep_view() =~= items_before.push(body@));
                assert(rest.skip(1) =~= s@.skip(j2 as int + 1));
                assert(items_before + seq![body@] =~= items.deep_view());
            }
            return Some((items, j2 + 1));
        } else {
            return None;
        }
    }
}

/// Decodes a JSON array of strings, whitespace around the tokens allowed;
/// `None` on anything else.
pub fn decode_string_list(s: &str) -> (r: Option<Vec<String>>)
    ensures
        match r {
            Some(v) => parse_string_list(s@) == Some(v.deep_view()),
            None => parse_string_list(s@) is None,
        },
{
    let chars = str_to_chars(s);
    let n = chars.len();
    proof {
        assert(chars@.skip(0) =~= s@);
    }
    let i0 = skip_ws_at(&chars, 0);
    let ghost s0 = chars@.skip(i0 as int);
    proof {
        assert(s0 == skip_ws(s@));
    }
    if i0 >= n {
        proof {
            assert(s0 =~= Seq::<char>::empty());
        }
        return None;
    }
    if chars[i0] != '[' {
        proof {
            assert(s0[0] == chars@[i0 as int]);
        }
        return None;
    }
    proof {
        assert(s0[0] == '[');
        assert(s0.skip(1) =~= chars@.skip(i0 as int + 1));
    }
    let i1 = skip_ws_at(&chars, i0 + 1);
    let ghost s1 = chars@.skip(i1 as int);
    proof {
        assert(s1 == skip_ws(s0.skip(1)));
    }
    if i1 < n && chars[i1] == ']' {
        proof {
            assert(s1[0] == ']');
            assert(s1.skip(1) =~= chars@.skip(i1 as int + 1));
        }
        let i2 = skip_ws_at(&chars, i1 + 1);
        if i2 == n {
            proof {
                assert(chars@.skip(i2 as int) =~= Seq::<char>::empty());
            }
            let v: Vec<String> = Vec::new();
            proof {
                assert(v.deep_view() =~= Seq::<Seq<char>>::empty());
            }
            return Some(v);
        }
        // Trailing text after the empty array: the item reader then starts
        // at the closing bracket, which is not a string, so the whole input
        // is malformed.
        proof {
            assert(chars@.skip(i2 as int).len() > 0);
            assert(skip_ws(s0.skip(1)) == s1);
        }
        return None;
    }
    proof {
        if i1 < n {
            assert(s1[0] == chars@[i1 as int]);
        } else {
            assert(s1 =~= Seq::<char>::empty());
        }
    }
    match parse_items_at(&chars, i0 + 1) {
        Some((items, j)) => {
            let j2 = skip_ws_at(&chars, j);
            if j2 == n {
                proof {
                    assert(chars@.skip(j2 as int) =~= Seq::<char>::empty());
                }
                Some(items)
            } else {
                proof {
                    assert(chars@.skip(j2 as int).len() > 0);
                }
                None
            }
        },
        None => None,
    }
}

/// Decodes a stored resident list the lenient way every household read
/// uses: a malformed cell is an empty list, never an error.
pub fn decode_or_empty(s: &str) -> (r: Vec<String>)
    ensures
        r.deep_view() == (match parse_string_list(s@) {
            Some(l) => l,
            None => Seq::<Seq<char>>::empty(),
        }),
{
    match decode_string_list(s) {
        Some(v) => v,
        None => {
            let v: Vec<String> = Vec::new();
            proof {
                assert(v.deep_view() =~= Seq::<Seq<char>>::empty());
            }
            v
        },
    }
}

/// Decoding inverts encoding: the canonical JSON array of any list of
/// strings parses back to exactly that list.
pub proof fn lemma_json_roundtrip(l: Seq<Seq<char>>)
    ensures
        parse_string_list(json_list(l)) == Some(l),
{
    let s = json_list(l);
    assert(s[0] == '[');
    assert(skip_ws(s) == s);
    if l.len() == 0 {
        assert(json_items(l) =~= Seq::<char>::empty());
        assert(s =~= seq!['[', ']']);
        assert(s.skip(1) =~= seq![']']);
        assert(skip_ws(seq![']']) == seq![']']);
        assert(seq![']'].skip(1) =~= Seq::<char>::empty());
        assert(skip_ws(Seq::<char>::empty()) == Seq::<char>::empty());
    } else {
        assert(json_items(l).len() >= 2);
        assert(s.len() >= 4);
        assert(s.skip(1) =~= json_items(l) + seq![']']);
        assert((json_items(l) + seq![']'])[0] == '"');
        assert(skip_ws(json_items(l) + seq![']']) == json_items(l) + seq![']']);
        lemma_parse_items_roundtrip(l);
        assert(skip_ws(Seq::<char>::empty()) == Seq::<char>::empty());
    }
}

} // verus!
