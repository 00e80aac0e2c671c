use vstd::prelude::*;
use vstd::string::{StrSliceExecFns, StringExecFns};

use crate::hex::{hex_char, hex_digit_str, hex_digit_value, hex_val, is_hex_digit,
    lemma_hex_digit_round_trip};

verus! {

/// True iff `s` is the compact text form of a 128-bit identifier:
/// thirty-two hexadecimal digits, either case, no separators.
pub open spec fn valid_simple_text(s: Seq<char>) -> bool {
    s.len() == 32 && forall|i: int| 0 <= i < 32 ==> is_hex_digit(#[trigger] s[i])
}

/// The sixteen bytes denoted by a compact identifier text.
pub open spec fn simple_text_bytes(s: Seq<char>) -> Seq<u8> {
    Seq::new(16, |i: int| (hex_val(s[2 * i]) * 16 + hex_val(s[2 * i + 1])) as u8)
}

/// The compact, lower-case text rendering of sixteen bytes.
pub open spec fn simple_text_of(b: Seq<u8>) -> Seq<char> {
    Seq::new(32, |j: int| hex_char(if j % 2 == 0 { (b[j / 2] / 16) as u8 } else { (b[j / 2] % 16) as u8 }))
}

/// The thirty-two digit characters of a hyphenated identifier text, in
/// order, with the four hyphens removed.
pub open spec fn strip_hyphens(s: Seq<char>) -> Seq<char> {
    s.subrange(0, 8) + s.subrange(9, 13) + s.subrange(14, 18) + s.subrange(19, 23)
        + s.subrange(24, 36)
}

/// True iff `s` is the hyphenated text form of a 128-bit identifier:
/// hexadecimal groups of 8, 4, 4, 4 and 12 digits separated by hyphens.
pub open spec fn valid_hyphenated_text(s: Seq<char>) -> bool {
    s.len() == 36 && s[8] == '-' && s[13] == '-' && s[18] == '-' && s[23] == '-'
        && valid_simple_text(strip_hyphens(s))
}

/// The sixteen bytes denoted by a hyphenated identifier text.
pub open spec fn hyphenated_text_bytes(s: Seq<char>) -> Seq<u8> {
    simple_text_bytes(strip_hyphens(s))
}

/// The hyphenated, lower-case text rendering of sixteen bytes.
pub open spec fn hyphenated_text_of(b: Seq<u8>) -> Seq<char> {
    let st = simple_text_of(b);
    st.subrange(0, 8) + seq!['-'] + st.subrange(8, 12) + seq!['-'] + st.subrange(12, 16)
        + seq!['-'] + st.subrange(16, 20) + seq!['-'] + st.subrange(20, 32)
}

/// True iff `s` is an identifier text in either accepted form.
pub open spec fn valid_uuid_text(s: Seq<char>) -> bool {
    valid_simple_text(s) || valid_hyphenated_text(s)
}

/// The sixteen bytes denoted by an identifier text in either form.
pub open spec fn uuid_text_bytes(s: Seq<char>) -> Seq<u8> {
    if valid_simple_text(s) {
        simple_text_bytes(s)
    } else {
        hyphenated_text_bytes(s)
    }
}

/// Parses the compact identifier form.
pub fn parse_simple_text(s: &str) -> (r: Option<Vec<u8>>)
    ensures
        r is Some <==> valid_simple_text(s@),
        r is Some ==> r->0@ == simple_text_bytes(s@),
{
    let n = s.unicode_len();
    if n != 32 {
        return None;
    }
    let mut out: Vec<u8> = Vec::new();
    let mut i: usize = 0;
    while i < 16
        invariant
            s@.len() == 32,
            i <= 16,
            out@.len() == i,
            forall|j: int| 0 <= j < 2 * i ==> is_hex_digit(#[trigger] s@[j]),
            forall|j: int| 0 <= j < i
                ==> out@[j] == (hex_val(s@[2 * j]) * 16 + hex_val(s@[2 * j + 1])) as u8,
        decreases 16 - i,
    {
        let hi = match hex_digit_value(s.get_char(2 * i)) {
            Some(v) => v,
            None => {
                return None;
            },
        };
        let lo = match hex_digit_value(s.get_char(2 * i + 1)) {
            Some(v) => v,
            None => {
                return None;
            },
        };
        out.push(hi * 16 + lo);
        i = i + 1;
    }
    proof {
        assert(out@ =~= simple_text_bytes(s@));
    }
    Some(out)
}

/// Parses the hyphenated identifier form.
fn parse_hyphenated_text(s: &str) -> (r: Option<Vec<u8>>)
    requires
        s@.len() == 36,
    ensures
        r is Some <==> valid_hyphenated_text(s@),
        r is Some ==> r->0@ == hyphenated_text_bytes(s@),
{
    if s.get_char(8) != '-' || s.get_char(13) != '-' || s.get_char(18) != '-'
        || s.get_char(23) != '-' {
        return None;
    }
    let mut t = s.substring_char(0, 8).to_owned();
    t.append(s.substring_char(9, 13));
    t.append(s.substring_char(14, 18));
    t.append(s.substring_char(19, 23));
    t.append(s.substring_char(24, 36));
    proof {
        assert(t@ =~= strip_hyphens(s@));
    }
    parse_simple_text(t.as_str())
}

/// Parses an identifier text, accepting either the compact or the
/// hyphenated form.
pub fn parse_uuid_text(s: &str) -> (r: Option<Vec<u8>>)
    ensures
        r is Some <==> valid_uuid_text(s@),
        r is Some ==> r->0@ == uuid_text_bytes(s@),
{
    let n = s.unicode_len();
    if n == 32 {
        parse_simple_text(s)
    } else if n == 36 {
        parse_hyphenated_text(s)
    } else {
        None
    }
}

/// Renders sixteen bytes in the compact identifier form.
pub fn format_simple(b: &Vec<u8>) -> (r: String)
    requires
        b@.len() == 16,
    ensures
        r@ == simple_text_of(b@),
{
    let mut out = String::new();
    let mut i: usize = 0;
    while i < 16
        invariant
            b@.len() == 16,
            i <= 16,
            out@ == simple_text_of(b@).subrange(0, 2 * i as int),
        decreases 16 - i,
    {
        let byte = b[i];
        out.append(hex_digit_str(byte / 16));
        out.append(hex_digit_str(byte % 16));
        proof {
            assert(out@ =~= simple_text_of(b@).subrange(0, 2 * (i + 1) as int));
        }
        i = i + 1;
    }
    proof {
        assert(simple_text_of(b@).subrange(0, 32) =~= simple_text_of(b@));
    }
    out
}

/// Renders sixteen bytes in the hyphenated identifier form.
pub fn format_hyphenated(b: &Vec<u8>) -> (r: String)
    requires
        b@.len() == 16,
    ensures
        r@ == hyphenated_text_of(b@),
{
    let st = format_simple(b);
    let s = st.as_str();
    let mut out = s.substring_char(0, 8).to_owned();
    out.append("-");
    out.append(s.substring_char(8, 12));
    out.append("-");
    out.append(s.substring_char(12, 16));
    out.append("-");
    out.append(s.substring_char(16, 20));
    out.append("-");
    out.append(s.substring_char(20, 32));
    proof {
        reveal_strlit("-");
        assert(("-")@ =~= seq!['-']);
        assert(out@ =~= hyphenated_text_of(b@));
    }
    out
}

/// Law: rendering sixteen bytes in the compact form and reading the
/// text back yields the same bytes.
pub proof fn lemma_simple_text_round_trip(b: Seq<u8>)
    requires
        b.len() == 16,
    ensures
        valid_simple_text(simple_text_of(b)),
        simple_text_bytes(simple_text_of(b)) == b,
{
    let s = simple_text_of(b);
    assert forall|i: int| 0 <= i < 32 implies is_hex_digit(#[trigger] s[i]) by {
        if i % 2 == 0 {
            lemma_hex_digit_round_trip((b[i / 2] / 16) as u8);
        } else {
            lemma_hex_digit_round_trip((b[i / 2] % 16) as u8);
        }
    }
    assert forall|i: int| 0 <= i < 16 implies simple_text_bytes(s)[i] == b[i] by {
        lemma_hex_digit_round_trip((b[i] / 16) as u8);
        lemma_hex_digit_round_trip((b[i] % 16) as u8);
        assert((2 * i) / 2 == i);
        assert((2 * i + 1) / 2 == i);
        assert(s[2 * i] == hex_char((b[i] / 16) as u8));
        assert(s[2 * i + 1] == hex_char((b[i] % 16) as u8));
        assert(b[i] == 16 * ((b[i] / 16) as u8) + ((b[i] % 16) as u8));
    }
    assert(simple_text_bytes(s) =~= b);
}

/// Law: rendering sixteen bytes in the hyphenated form and reading the
/// text back yields the same bytes.
pub proof fn lemma_hyphenated_text_round_trip(b: Seq<u8>)
    requires
        b.len() == 16,
    ensures
        valid_hyphenated_text(hyphenated_text_of(b)),
        hyphenated_text_bytes(hyphenated_text_of(b)) == b,
{
    let st = simple_text_of(b);
    let h = hyphenated_text_of(b);
    lemma_simple_text_round_trip(b);
    assert(h.len() == 36);
    assert(h[8] == '-');
    assert(h[13] == '-');
    assert(h[18] == '-');
    assert(h[23] == '-');
    assert(strip_hyphens(h) =~= st);
    assert(simple_text_bytes(strip_hyphens(h)) == b);
}

} // verus!
