//! Identities of sandboxes, of their incarnations and of their snapshots.

use crate::text::{is_space, same_ignoring_case, spaceless_texts_stay, texts_match, trimmed};
use vstd::arithmetic::div_mod::lemma_div_denominator;
use vstd::arithmetic::power::{lemma_pow0, lemma_pow_positive, pow};
use vstd::prelude::*;
use vstd::string::*;

verus! {

/// The number of the UUID that a text spells, as `uuid::Uuid::parse_str` reads it.
pub uninterp spec fn uuid_number(text: Seq<char>) -> Option<u128>;

/// The lower-case hexadecimal digit `d`, for `d < 16`.
pub open spec fn hex_char(d: int) -> char {
    "0123456789abcdef"@[d]
}

/// Whether the text of a UUID has a hyphen at position `i`.
pub open spec fn is_hyphen(i: int) -> bool {
    i == 8 || i == 13 || i == 18 || i == 23
}

/// Which of the 32 hexadecimal digits stands at position `i` of the text of a UUID.
pub open spec fn digit_at(i: int) -> int {
    if i < 8 {
        i
    } else if i < 13 {
        i - 1
    } else if i < 18 {
        i - 2
    } else if i < 23 {
        i - 3
    } else {
        i - 4
    }
}

/// The text of the UUID with this number: its 32 hexadecimal digits, most significant first, in
/// groups of 8, 4, 4, 4 and 12 with hyphens between them.
pub open spec fn uuid_text(number: u128) -> Seq<char> {
    Seq::new(
        36,
        |i: int|
            if is_hyphen(i) {
                '-'
            } else {
                hex_char((number as int / pow(16, (31 - digit_at(i)) as nat)) % 16)
            },
    )
}

/// `uuid::Uuid::parse_str`: the number of the UUID that `text` spells in one of the formats that
/// the crate knows, or nothing where it spells none. Which texts those are is left to the name
/// [`uuid_number`].
#[verifier::external_body]
pub(crate) fn parse_uuid(text: &str) -> (r: Option<u128>)
    ensures
        r == uuid_number(text@),
{
    uuid::Uuid::parse_str(text).ok().map(|u| u.as_u128())
}

/// `uuid::Uuid`'s `Display`: the hyphenated lower-case text of the UUID with this number. The crate
/// reads back what it writes: parsing the text gives the number.
#[verifier::external_body]
pub(crate) fn display_uuid(number: u128) -> (r: String)
    ensures
        r@ == uuid_text(number),
        uuid_number(r@) == Some(number),
{
    uuid::Uuid::from_u128(number).to_string()
}

/// The text of a UUID holds no white space.
pub proof fn uuid_texts_are_spaceless(number: u128)
    ensures
        trimmed(uuid_text(number)) == uuid_text(number),
        uuid_text(number).len() == 36,
{
    reveal_strlit("0123456789abcdef");
    let text = uuid_text(number);
    assert forall|i: int| 0 <= i < text.len() implies !is_space(#[trigger] text[i]) by {
        if !is_hyphen(i) {
            let d = (number as int / pow(16, (31 - digit_at(i)) as nat)) % 16;
            assert(0 <= d < 16);
            assert(text[i] == hex_char(d));
        }
    }
    spaceless_texts_stay(text);
}

/// The hexadecimal digit number `k` of `x`, least significant first.
pub open spec fn hex_digit_of(x: int, k: nat) -> int {
    (x / pow(16, k)) % 16
}

proof fn equal_digits_are_equal_numbers(x: int, y: int, n: nat)
    requires
        0 <= x < pow(16, n),
        0 <= y < pow(16, n),
        forall|k: nat| k < n ==> #[trigger] hex_digit_of(x, k) == hex_digit_of(y, k),
    ensures
        x == y,
    decreases n,
{
    lemma_pow0(16);
    if n > 0 {
        let m = (n - 1) as nat;
        lemma_pow_positive(16, m);
        assert(pow(16, n) == 16 * pow(16, m)) by {
            reveal(pow);
        }
        assert(hex_digit_of(x, 0) == hex_digit_of(y, 0));
        assert(x / 1 == x && y / 1 == y);
        assert forall|k: nat| k < m implies #[trigger] hex_digit_of(x / 16, k) == hex_digit_of(
            y / 16,
            k,
        ) by {
            assert(hex_digit_of(x, k + 1) == hex_digit_of(y, k + 1));
            lemma_pow_positive(16, k);
            assert(pow(16, k + 1) == 16 * pow(16, k)) by {
                reveal(pow);
            }
            lemma_div_denominator(x, 16, pow(16, k));
            lemma_div_denominator(y, 16, pow(16, k));
        }
        equal_digits_are_equal_numbers(x / 16, y / 16, m);
    }
}

/// Two UUIDs of the same text, but for the case of letters, are the same.
pub proof fn uuid_texts_tell_apart(a: u128, b: u128)
    ensures
        texts_match(uuid_text(a), uuid_text(b)) <==> a == b,
{
    reveal_strlit("0123456789abcdef");
    let s = uuid_text(a);
    let t = uuid_text(b);
    if texts_match(s, t) {
        assert forall|k: nat| k < 32 implies #[trigger] hex_digit_of(a as int, k) == hex_digit_of(
            b as int,
            k,
        ) by {
            let d = 31 - k;
            let i = if d < 8 {
                d
            } else if d < 12 {
                d + 1
            } else if d < 16 {
                d + 2
            } else if d < 20 {
                d + 3
            } else {
                d + 4
            };
            assert(digit_at(i) == d && !is_hyphen(i) && 0 <= i < 36);
            let x = hex_digit_of(a as int, k);
            let y = hex_digit_of(b as int, k);
            assert(s[i] == hex_char(x));
            assert(t[i] == hex_char(y));
            assert(same_ignoring_case(s[i], t[i]));
            assert(0 <= x < 16 && 0 <= y < 16);
        }
        assert(pow(16, 32) == 0x1_0000_0000_0000_0000_0000_0000_0000_0000) by {
            reveal(pow);
            reveal_with_fuel(pow, 33);
        }
        equal_digits_are_equal_numbers(a as int, b as int, 32);
    }
}

/// Identity of a sandbox, kept over all of its incarnations.
#[derive(Debug, Clone, Copy, PartialEq, Eq, Structural)]
pub struct SandboxId {
    pub number: u128,
}

/// Identity of one incarnation of a sandbox.
#[derive(Debug, Clone, Copy, PartialEq, Eq, Structural)]
pub struct ExecutionId {
    pub number: u128,
}

impl SandboxId {
    /// The identity that a text spells.
    pub fn parse_str(text: &str) -> (r: Option<SandboxId>)
        ensures
            r == match uuid_number(text@) {
                Some(number) => Some(SandboxId { number }),
                None => None,
            },
    {
        match parse_uuid(text) {
            Some(number) => Some(SandboxId { number }),
            None => None,
        }
    }

    /// The text of the identity.
    pub fn text(self) -> (r: String)
        ensures
            r@ == uuid_text(self.number),
            uuid_number(r@) == Some(self.number),
            r@.len() == 36,
            trimmed(r@) == r@,
    {
        let r = display_uuid(self.number);
        proof {
            uuid_texts_are_spaceless(self.number);
        }
        r
    }
}

impl ExecutionId {
    /// The identity that a text spells.
    pub fn parse_str(text: &str) -> (r: Option<ExecutionId>)
        ensures
            r == match uuid_number(text@) {
                Some(number) => Some(ExecutionId { number }),
                None => None,
            },
    {
        match parse_uuid(text) {
            Some(number) => Some(ExecutionId { number }),
            None => None,
        }
    }

    /// The text of the identity.
    pub fn text(self) -> (r: String)
        ensures
            r@ == uuid_text(self.number),
            uuid_number(r@) == Some(self.number),
            r@.len() == 36,
            trimmed(r@) == r@,
    {
        let r = display_uuid(self.number);
        proof {
            uuid_texts_are_spaceless(self.number);
        }
        r
    }
}

/// The text of a UUID has hyphens behind its 8th, 12th, 16th and 20th digit and lower-case
/// hexadecimal digits everywhere else, and the last of them is the number's lowest.
pub proof fn uuid_texts_are_grouped(number: u128, i: int)
    requires
        0 <= i < 36,
    ensures
        uuid_text(number).len() == 36,
        uuid_text(number)[i] == '-' <==> i == 8 || i == 13 || i == 18 || i == 23,
        i != 8 && i != 13 && i != 18 && i != 23 ==> '0' <= uuid_text(number)[i] <= '9' || 'a'
            <= uuid_text(number)[i] <= 'f',
        uuid_text(number)[35] == "0123456789abcdef"@[number as int % 16],
{
    reveal_strlit("0123456789abcdef");
    lemma_pow0(16);
    let d = (number as int / pow(16, (31 - digit_at(i)) as nat)) % 16;
    assert(0 <= d < 16);
    assert(digit_at(35) == 31);
    assert(number as int / 1 == number as int);
}

} // verus!
