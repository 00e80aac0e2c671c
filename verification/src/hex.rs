use vstd::prelude::*;

verus! {

/// True iff `c` is an ASCII hexadecimal digit (either case).
pub open spec fn is_hex_digit(c: char) -> bool {
    let u = c as u32;
    (48 <= u && u <= 57) || (65 <= u && u <= 70) || (97 <= u && u <= 102)
}

/// The numeric value of a hexadecimal digit; 0 on any other character.
pub open spec fn hex_val(c: char) -> u8 {
    let u = c as u32;
    if 48 <= u && u <= 57 {
        (u - 48) as u8
    } else if 65 <= u && u <= 70 {
        (u - 55) as u8
    } else if 97 <= u && u <= 102 {
        (u - 87) as u8
    } else {
        0
    }
}

/// The lower-case hexadecimal digit for a value below 16; '0' otherwise.
pub open spec fn hex_char(n: u8) -> char {
    if n == 0 { '0' }
    else if n == 1 { '1' }
    else if n == 2 { '2' }
    else if n == 3 { '3' }
    else if n == 4 { '4' }
    else if n == 5 { '5' }
    else if n == 6 { '6' }
    else if n == 7 { '7' }
    else if n == 8 { '8' }
    else if n == 9 { '9' }
    else if n == 10 { 'a' }
    else if n == 11 { 'b' }
    else if n == 12 { 'c' }
    else if n == 13 { 'd' }
    else if n == 14 { 'e' }
    else if n == 15 { 'f' }
    else { '0' }
}

/// A value below 16 renders to a digit that reads back as that value.
pub proof fn lemma_hex_digit_round_trip(n: u8)
    requires
        n < 16,
    ensures
        is_hex_digit(hex_char(n)),
        hex_val(hex_char(n)) == n,
{
}

/// Reads one character as a hexadecimal digit.
pub fn hex_digit_value(c: char) -> (r: Option<u8>)
    ensures
        r is Some <==> is_hex_digit(c),
        r is Some ==> r->0 == hex_val(c) && r->0 < 16,
{
    let u = c as u32;
    if 48 <= u && u <= 57 {
        Some((u - 48) as u8)
    } else if 65 <= u && u <= 70 {
        Some((u - 55) as u8)
    } else if 97 <= u && u <= 102 {
        Some((u - 87) as u8)
    } else {
        None
    }
}

/// Renders a value below 16 as a one-character lower-case hexadecimal
/// string.
pub fn hex_digit_str(n: u8) -> (r: &'static str)
    requires
        n < 16,
    ensures
        r@ == seq![hex_char(n)],
{
    if n == 0 {
        proof { reveal_strlit("0"); assert(("0")@ =~= seq![hex_char(n)]); }
        "0"
    } else if n == 1 {
        proof { reveal_strlit("1"); assert(("1")@ =~= seq![hex_char(n)]); }
        "1"
    } else if n == 2 {
        proof { reveal_strlit("2"); assert(("2")@ =~= seq![hex_char(n)]); }
        "2"
    } else if n == 3 {
        proof { reveal_strlit("3"); assert(("3")@ =~= seq![hex_char(n)]); }
        "3"
    } else if n == 4 {
        proof { reveal_strlit("4"); assert(("4")@ =~= seq![hex_char(n)]); }
        "4"
    } else if n == 5 {
        proof { reveal_strlit("5"); assert(("5")@ =~= seq![hex_char(n)]); }
        "5"
    } else if n == 6 {
        proof { reveal_strlit("6"); assert(("6")@ =~= seq![hex_char(n)]); }
        "6"
    } else if n == 7 {
        proof { reveal_strlit("7"); assert(("7")@ =~= seq![hex_char(n)]); }
        "7"
    } else if n == 8 {
        proof { reveal_strlit("8"); assert(("8")@ =~= seq![hex_char(n)]); }
        "8"
    } else if n == 9 {
        proof { reveal_strlit("9"); assert(("9")@ =~= seq![hex_char(n)]); }
        "9"
    } else if n == 10 {
        proof { reveal_strlit("a"); assert(("a")@ =~= seq![hex_char(n)]); }
        "a"
    } else if n == 11 {
        proof { reveal_strlit("b"); assert(("b")@ =~= seq![hex_char(n)]); }
        "b"
    } else if n == 12 {
        proof { reveal_strlit("c"); assert(("c")@ =~= seq![hex_char(n)]); }
        "c"
    } else if n == 13 {
        proof { reveal_strlit("d"); assert(("d")@ =~= seq![hex_char(n)]); }
        "d"
    } else if n == 14 {
        proof { reveal_strlit("e"); assert(("e")@ =~= seq![hex_char(n)]); }
        "e"
    } else {
        proof { reveal_strlit("f"); assert(("f")@ =~= seq![hex_char(n)]); }
        "f"
    }
}

} // verus!
