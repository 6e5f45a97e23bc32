//! Reading an IPv4 address from dotted-quad text. The only text that is
//! taken is the one [`Ipv4::to_text`] writes: four decimal numerals from
//! 0 to 255, without leading zeros, joined by dots.

use crate::addr::Ipv4;
use crate::text::{decimal, digit};
use vstd::prelude::*;
use vstd::string::*;

verus! {

/// The value of a decimal digit, or `None` for any other character.
pub open spec fn digit_value(c: char) -> Option<int> {
    if c == '0' {
        Some(0)
    } else if c == '1' {
        Some(1)
    } else if c == '2' {
        Some(2)
    } else if c == '3' {
        Some(3)
    } else if c == '4' {
        Some(4)
    } else if c == '5' {
        Some(5)
    } else if c == '6' {
        Some(6)
    } else if c == '7' {
        Some(7)
    } else if c == '8' {
        Some(8)
    } else if c == '9' {
        Some(9)
    } else {
        None
    }
}

/// Whether `text` has a digit at `i`.
pub open spec fn digit_at(text: Seq<char>, i: int) -> bool {
    0 <= i < text.len() && digit_value(text[i]) is Some
}

/// The value of the digit at `i`.
pub open spec fn value_at(text: Seq<char>, i: int) -> int {
    digit_value(text[i])->0
}

/// Whether `text` has a dot at `i`.
pub open spec fn dot_at(text: Seq<char>, i: int) -> bool {
    0 <= i < text.len() && text[i] == '.'
}

/// The numeral that starts at `i`, with the place where it ends: the
/// longest run of at most three digits, which must not start with a zero
/// unless it is a single zero, and must not be more than 255.
#[verifier::opaque]
pub open spec fn octet_at(text: Seq<char>, i: int) -> Option<(u8, int)> {
    if !digit_at(text, i) {
        None
    } else if !digit_at(text, i + 1) {
        Some((value_at(text, i) as u8, i + 1))
    } else if value_at(text, i) == 0 {
        None
    } else if !digit_at(text, i + 2) {
        Some(((value_at(text, i) * 10 + value_at(text, i + 1)) as u8, i + 2))
    } else if value_at(text, i) * 100 + value_at(text, i + 1) * 10 + value_at(text, i + 2) > 255 {
        None
    } else {
        Some(
            (
                (value_at(text, i) * 100 + value_at(text, i + 1) * 10 + value_at(text, i + 2)) as u8,
                i + 3,
            ),
        )
    }
}

/// The address that `text` spells, read left to right.
pub open spec fn parse_text(text: Seq<char>) -> Option<Ipv4> {
    match octet_at(text, 0) {
        Some((a, i)) if dot_at(text, i) => match octet_at(text, i + 1) {
            Some((b, j)) if dot_at(text, j) => match octet_at(text, j + 1) {
                Some((c, k)) if dot_at(text, k) => match octet_at(text, k + 1) {
                    Some((d, end)) if end == text.len() => Some(Ipv4 { a, b, c, d }),
                    _ => None,
                },
                _ => None,
            },
            _ => None,
        },
        _ => None,
    }
}

proof fn lemma_digits(d: int)
    requires
        0 <= d <= 9,
    ensures
        digit_value(digit(d)) == Some(d),
        digit(d) != '.',
{
}

proof fn lemma_digit_value(c: char)
    requires
        digit_value(c) is Some,
    ensures
        0 <= digit_value(c)->0 <= 9,
        digit(digit_value(c)->0) == c,
{
}

/// The numeral of a number up to 255, digit by digit.
proof fn lemma_decimal_of_octet(v: nat)
    requires
        v <= 255,
    ensures
        v < 10 ==> decimal(v) == seq![digit(v as int)],
        10 <= v < 100 ==> decimal(v) == seq![digit(v as int / 10), digit(v as int % 10)],
        100 <= v ==> decimal(v) == seq![
            digit(v as int / 100),
            digit((v as int / 10) % 10),
            digit(v as int % 10),
        ],
{
    reveal_with_fuel(decimal, 3);
    if 10 <= v < 100 {
        assert(decimal(v) =~= seq![digit(v as int / 10), digit(v as int % 10)]);
    }
    if 100 <= v {
        assert((v / 10) / 10 == v / 100);
        assert(decimal(v) =~= seq![
            digit(v as int / 100),
            digit((v as int / 10) % 10),
            digit(v as int % 10),
        ]);
    }
}

/// What `octet_at` reads is the numeral of the number it returns.
proof fn lemma_octet_is_numeral(text: Seq<char>, i: int)
    requires
        octet_at(text, i) is Some,
    ensures
        ({
            let (v, end) = octet_at(text, i)->0;
            &&& 0 <= i < end <= text.len()
            &&& text.subrange(i, end) == decimal(v as nat)
        }),
{
    reveal(octet_at);
    let (v, end) = octet_at(text, i)->0;
    lemma_digit_value(text[i]);
    let d0 = value_at(text, i);
    if !digit_at(text, i + 1) {
        lemma_decimal_of_octet(d0 as nat);
        assert(text.subrange(i, end) =~= seq![text[i]]);
    } else {
        lemma_digit_value(text[i + 1]);
        let d1 = value_at(text, i + 1);
        if !digit_at(text, i + 2) {
            let n = d0 * 10 + d1;
            lemma_decimal_of_octet(n as nat);
            assert(n / 10 == d0 && n % 10 == d1);
            assert(text.subrange(i, end) =~= seq![text[i], text[i + 1]]);
        } else {
            lemma_digit_value(text[i + 2]);
            let d2 = value_at(text, i + 2);
            let n = d0 * 100 + d1 * 10 + d2;
            lemma_decimal_of_octet(n as nat);
            assert(n / 100 == d0 && (n / 10) % 10 == d1 && n % 10 == d2);
            assert(text.subrange(i, end) =~= seq![text[i], text[i + 1], text[i + 2]]);
        }
    }
}

/// `octet_at` reads the numeral of any number up to 255 back, wherever it
/// stands, as long as no digit follows it.
proof fn lemma_numeral_is_octet(before: Seq<char>, v: u8, after: Seq<char>)
    requires
        after.len() == 0 || digit_value(after[0]) is None,
    ensures
        octet_at(before + decimal(v as nat) + after, before.len() as int) == Some(
            (v, (before.len() + decimal(v as nat).len()) as int),
        ),
        1 <= decimal(v as nat).len() <= 3,
{
    reveal(octet_at);
    let numeral = decimal(v as nat);
    let text = before + numeral + after;
    let i = before.len() as int;
    lemma_decimal_of_octet(v as nat);
    let n = v as int;
    lemma_digits(n % 10);
    lemma_digits((n / 10) % 10);
    lemma_digits(n / 100);
    assert(forall|k: int| 0 <= k < numeral.len() ==> text[i + k] == numeral[k]);
    if after.len() > 0 {
        assert(text[i + numeral.len()] == after[0]);
    }
    if n < 10 {
        assert(text[i] == numeral[0]);
    } else if n < 100 {
        assert(text[i] == numeral[0]);
        assert(text[i + 1] == numeral[1]);
        assert(n / 10 != 0);
        assert((n / 10) * 10 + n % 10 == n);
    } else {
        assert(text[i] == numeral[0]);
        assert(text[i + 1] == numeral[1]);
        assert(text[i + 2] == numeral[2]);
        assert(n / 100 != 0);
        assert((n / 100) * 100 + ((n / 10) % 10) * 10 + n % 10 == n);
    }
}

/// Text that is read as an address is the text of that address.
pub proof fn lemma_parsed_text_is_canonical(text: Seq<char>)
    requires
        parse_text(text) is Some,
    ensures
        text == parse_text(text)->0.text(),
{
    let (a, i) = octet_at(text, 0)->0;
    lemma_octet_is_numeral(text, 0);
    let (b, j) = octet_at(text, i + 1)->0;
    lemma_octet_is_numeral(text, i + 1);
    let (c, k) = octet_at(text, j + 1)->0;
    lemma_octet_is_numeral(text, j + 1);
    let (d, end) = octet_at(text, k + 1)->0;
    lemma_octet_is_numeral(text, k + 1);
    let ip = Ipv4 { a, b, c, d };
    assert(text =~= text.subrange(0, i) + seq!['.'] + text.subrange(i + 1, j) + seq!['.']
        + text.subrange(j + 1, k) + seq!['.'] + text.subrange(k + 1, end));
}

/// One numeral of an address, in its place: `octet_at` reads it back,
/// and what follows is the dot, or the end of the text.
proof fn lemma_numeral_in_place(text: Seq<char>, before: Seq<char>, v: u8, after: Seq<char>)
    requires
        text == before + decimal(v as nat) + after,
        after.len() == 0 || after[0] == '.',
    ensures
        ({
            let end = (before.len() + decimal(v as nat).len()) as int;
            &&& octet_at(text, before.len() as int) == Some((v, end))
            &&& after.len() > 0 ==> dot_at(text, end)
            &&& after.len() == 0 ==> end == text.len()
        }),
{
    lemma_numeral_is_octet(before, v, after);
    let end = (before.len() + decimal(v as nat).len()) as int;
    if after.len() > 0 {
        assert(text[end] == after[0]);
    }
}

/// Round trip: the text of an address is read back as that address.
pub proof fn lemma_text_round_trip(ip: Ipv4)
    ensures
        parse_text(ip.text()) == Some(ip),
{
    let dot = seq!['.'];
    let a = decimal(ip.a as nat);
    let b = decimal(ip.b as nat);
    let c = decimal(ip.c as nat);
    let d = decimal(ip.d as nat);
    let text = ip.text();
    let empty = Seq::<char>::empty();
    let i = a.len() as int;
    let j = i + 1 + b.len();
    let k = j + 1 + c.len();
    let end = k + 1 + d.len();

    assert(octet_at(text, 0) == Some((ip.a, i)) && dot_at(text, i)) by {
        let after = dot + b + dot + c + dot + d;
        assert(text =~= empty + a + after);
        assert(after[0] == '.');
        lemma_numeral_in_place(text, empty, ip.a, after);
    }
    assert(octet_at(text, i + 1) == Some((ip.b, j)) && dot_at(text, j)) by {
        let before = a + dot;
        let after = dot + c + dot + d;
        assert(text =~= before + b + after);
        assert(after[0] == '.');
        lemma_numeral_in_place(text, before, ip.b, after);
    }
    assert(octet_at(text, j + 1) == Some((ip.c, k)) && dot_at(text, k)) by {
        let before = a + dot + b + dot;
        let after = dot + d;
        assert(text =~= before + c + after);
        assert(after[0] == '.');
        lemma_numeral_in_place(text, before, ip.c, after);
    }
    assert(octet_at(text, k + 1) == Some((ip.d, end)) && end == text.len()) by {
        let before = a + dot + b + dot + c + dot;
        assert(text =~= before + d + empty);
        lemma_numeral_in_place(text, before, ip.d, empty);
    }
}

/// Each address has one text: two addresses with the same text are the
/// same address.
pub proof fn lemma_text_is_injective(first: Ipv4, second: Ipv4)
    requires
        first.text() == second.text(),
    ensures
        first == second,
{
    lemma_text_round_trip(first);
    lemma_text_round_trip(second);
}

fn digit_of(c: char) -> (value: Option<u16>)
    ensures
        match value {
            Some(v) => digit_value(c) == Some(v as int),
            None => digit_value(c) is None,
        },
{
    if c == '0' {
        Some(0)
    } else if c == '1' {
        Some(1)
    } else if c == '2' {
        Some(2)
    } else if c == '3' {
        Some(3)
    } else if c == '4' {
        Some(4)
    } else if c == '5' {
        Some(5)
    } else if c == '6' {
        Some(6)
    } else if c == '7' {
        Some(7)
    } else if c == '8' {
        Some(8)
    } else if c == '9' {
        Some(9)
    } else {
        None
    }
}

fn digit_in(text: &str, len: usize, i: usize) -> (value: Option<u16>)
    requires
        len == text@.len(),
    ensures
        match value {
            Some(v) => digit_at(text@, i as int) && value_at(text@, i as int) == v && v <= 9,
            None => !digit_at(text@, i as int),
        },
{
    if i < len {
        digit_of(text.get_char(i))
    } else {
        None
    }
}

fn is_dot(text: &str, len: usize, i: usize) -> (dot: bool)
    requires
        len == text@.len(),
    ensures
        dot == dot_at(text@, i as int),
{
    i < len && text.get_char(i) == '.'
}

fn read_octet(text: &str, len: usize, i: usize) -> (octet: Option<(u8, usize)>)
    requires
        len == text@.len(),
        i <= len,
        len <= 15,
    ensures
        match octet {
            Some((v, end)) => octet_at(text@, i as int) == Some((v, end as int)) && end <= len,
            None => octet_at(text@, i as int) is None,
        },
{
    proof {
        reveal(octet_at);
    }
    let d0: u16 = match digit_in(text, len, i) {
        Some(d) => d,
        None => {
            return None;
        },
    };
    let d1: u16 = match digit_in(text, len, i + 1) {
        Some(d) => d,
        None => {
            return Some((d0 as u8, i + 1));
        },
    };
    if d0 == 0 {
        return None;
    }
    let d2: u16 = match digit_in(text, len, i + 2) {
        Some(d) => d,
        None => {
            return Some(((d0 * 10 + d1) as u8, i + 2));
        },
    };
    let value: u16 = d0 * 100 + d1 * 10 + d2;
    if value > 255 {
        None
    } else {
        Some((value as u8, i + 3))
    }
}

impl Ipv4 {
    /// Reads an address from dotted-quad text. The text is taken exactly
    /// when it is the text of an address, and that address is returned.
    pub fn parse(text: &str) -> (parsed: Option<Ipv4>)
        ensures
            parsed == parse_text(text@),
            match parsed {
                Some(ip) => text@ == ip.text(),
                None => forall|ip: Ipv4| text@ != #[trigger] ip.text(),
            },
    {
        proof {
            if parse_text(text@) is Some {
                lemma_parsed_text_is_canonical(text@);
            } else {
                assert forall|ip: Ipv4| text@ != #[trigger] ip.text() by {
                    lemma_text_round_trip(ip);
                }
            }
        }
        let len = text.unicode_len();
        if len > 15 {
            proof {
                lemma_long_text_is_no_address(text@);
            }
            return None;
        }
        let (a, i) = match read_octet(text, len, 0) {
            Some(octet) => octet,
            None => {
                return None;
            },
        };
        if !is_dot(text, len, i) {
            return None;
        }
        let (b, j) = match read_octet(text, len, i + 1) {
            Some(octet) => octet,
            None => {
                return None;
            },
        };
        if !is_dot(text, len, j) {
            return None;
        }
        let (c, k) = match read_octet(text, len, j + 1) {
            Some(octet) => octet,
            None => {
                return None;
            },
        };
        if !is_dot(text, len, k) {
            return None;
        }
        let (d, end) = match read_octet(text, len, k + 1) {
            Some(octet) => octet,
            None => {
                return None;
            },
        };
        if end == len {
            Some(Ipv4 { a, b, c, d })
        } else {
            None
        }
    }
}

proof fn lemma_octet_is_short(text: Seq<char>, i: int)
    requires
        octet_at(text, i) is Some,
    ensures
        ({
            let (v, end) = octet_at(text, i)->0;
            end <= i + 3
        }),
{
    reveal(octet_at);
}

/// No address is written with more than fifteen characters.
proof fn lemma_long_text_is_no_address(text: Seq<char>)
    requires
        text.len() > 15,
    ensures
        parse_text(text) is None,
{
    if parse_text(text) is Some {
        let (a, i) = octet_at(text, 0)->0;
        let (b, j) = octet_at(text, i + 1)->0;
        let (c, k) = octet_at(text, j + 1)->0;
        let (d, end) = octet_at(text, k + 1)->0;
        lemma_octet_is_short(text, 0);
        lemma_octet_is_short(text, i + 1);
        lemma_octet_is_short(text, j + 1);
        lemma_octet_is_short(text, k + 1);
    }
}

} // verus!
