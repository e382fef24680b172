//! Small helpers on text: comparison, joining, and the decimal and
//! hexadecimal spellings that keys and messages are built from.

use vstd::prelude::*;
use vstd::string::StringExecFns;

verus! {

/// Whether two texts are the same, character for character.
pub fn same_text(a: &str, b: &str) -> (r: bool)
    ensures
        r == (a@ == b@),
{
    let x = a.to_owned();
    let y = b.to_owned();
    x == y
}

/// The character that spells the digit `d` in base ten or sixteen, lower case.
pub open spec fn digit_char(d: int) -> char {
    seq!['0', '1', '2', '3', '4', '5', '6', '7', '8', '9', 'a', 'b', 'c', 'd', 'e', 'f'][d]
}

/// The decimal spelling of a natural number, without leading zeros.
pub open spec fn natural_text(n: nat) -> Seq<char>
    decreases n,
{
    if n < 10 {
        seq![digit_char(n as int)]
    } else {
        natural_text(n / 10).push(digit_char((n % 10) as int))
    }
}

/// The decimal spelling of an integer, with a minus sign where it is negative.
pub open spec fn integer_text(n: int) -> Seq<char> {
    if n < 0 {
        seq!['-'] + natural_text((-n) as nat)
    } else {
        natural_text(n as nat)
    }
}

/// The one-character text of a digit below sixteen.
fn digit_text(d: u8) -> (r: &'static str)
    requires
        d < 16,
    ensures
        r@ == seq![digit_char(d as int)],
{
    proof {
        reveal_strlit("0");
        reveal_strlit("1");
        reveal_strlit("2");
        reveal_strlit("3");
        reveal_strlit("4");
        reveal_strlit("5");
        reveal_strlit("6");
        reveal_strlit("7");
        reveal_strlit("8");
        reveal_strlit("9");
        reveal_strlit("a");
        reveal_strlit("b");
        reveal_strlit("c");
        reveal_strlit("d");
        reveal_strlit("e");
        reveal_strlit("f");
    }
    let r = match d {
        0 => "0",
        1 => "1",
        2 => "2",
        3 => "3",
        4 => "4",
        5 => "5",
        6 => "6",
        7 => "7",
        8 => "8",
        9 => "9",
        10 => "a",
        11 => "b",
        12 => "c",
        13 => "d",
        14 => "e",
        _ => "f",
    };
    assert(r@ =~= seq![digit_char(d as int)]);
    r
}

/// Spells a natural number in decimal.
fn natural_to_text(n: u64) -> (r: String)
    ensures
        r@ == natural_text(n as nat),
    decreases n,
{
    if n < 10 {
        String::from_str(digit_text(n as u8))
    } else {
        let mut text = natural_to_text(n / 10);
        let digit: u8 = (n % 10) as u8;
        text.append(digit_text(digit));
        assert(text@ =~= natural_text((n / 10) as nat).push(digit_char((n % 10) as int)));
        text
    }
}

/// Spells an integer in decimal.
pub fn integer_to_text(n: i64) -> (r: String)
    ensures
        r@ == integer_text(n as int),
{
    if n < 0 {
        let magnitude: u64 = if n == i64::MIN {
            9_223_372_036_854_775_808
        } else {
            (-n) as u64
        };
        let digits = natural_to_text(magnitude);
        proof {
            reveal_strlit("-");
        }
        let text = String::from_str("-").concat(digits.as_str());
        assert(text@ =~= seq!['-'] + natural_text((-n) as nat));
        text
    } else {
        natural_to_text(n as u64)
    }
}

/// Sixteen to the power `e`.
pub open spec fn pow16(e: nat) -> int
    decreases e,
{
    if e == 0 {
        1
    } else {
        16 * pow16((e - 1) as nat)
    }
}

/// The canonical spelling of a 128-bit identifier: its thirty-two hexadecimal
/// digits, most significant first and in lower case, in groups of eight, four,
/// four, four and twelve with a hyphen between groups.
pub open spec fn uuid_text(id: u128) -> Seq<char> {
    Seq::new(
        36,
        |i: int|
            if i == 8 || i == 13 || i == 18 || i == 23 {
                '-'
            } else {
                let hyphens_before: int = if i > 23 {
                    4
                } else if i > 18 {
                    3
                } else if i > 13 {
                    2
                } else if i > 8 {
                    1
                } else {
                    0
                };
                let place = 31 - (i - hyphens_before);
                digit_char((id as int / pow16(place as nat)) % 16)
            },
    )
}

/// Spells an identifier with `uuid`'s `Uuid::from_u128` and its `Display`,
/// which writes the hyphenated lower-case form.
#[verifier::external_body]
pub(crate) fn uuid_to_text(id: u128) -> (r: String)
    ensures
        r@ == uuid_text(id),
{
    uuid::Uuid::from_u128(id).to_string()
}

/// The lower-case form of a text as `str::to_lowercase` gives it.
pub uninterp spec fn lowercase_text(text: Seq<char>) -> Seq<char>;

/// Lower-cases a text with `str::to_lowercase`. The result is a function of
/// the text; it is named, not spelled out.
#[verifier::external_body]
pub(crate) fn to_lowercase(text: &str) -> (r: String)
    ensures
        r@ == lowercase_text(text@),
{
    text.to_lowercase()
}

/// `a` followed by `b`.
pub fn join2(a: &str, b: &str) -> (r: String)
    ensures
        r@ == a@ + b@,
{
    String::from_str(a).concat(b)
}

/// `a`, `b` and `c` in a row.
pub fn join3(a: &str, b: &str, c: &str) -> (r: String)
    ensures
        r@ == a@ + b@ + c@,
{
    String::from_str(a).concat(b).concat(c)
}

} // verus!
