//! Account identifiers and their textual form.

use vstd::prelude::*;

verus! {

/// Number of bytes in an account identifier.
pub const ADDRESS_BYTES: usize = 20;

/// Number of characters in the textual form, prefix included.
pub const ADDRESS_TEXT_LEN: usize = 42;

pub open spec fn is_hex_digit(c: char) -> bool {
    ('0' <= c && c <= '9') || ('a' <= c && c <= 'f') || ('A' <= c && c <= 'F')
}

/// The numeric value of a hexadecimal digit.
pub open spec fn hex_value(c: char) -> int {
    if '0' <= c && c <= '9' {
        (c as u32) - ('0' as u32)
    } else if 'a' <= c && c <= 'f' {
        (c as u32) - ('a' as u32) + 10
    } else {
        (c as u32) - ('A' as u32) + 10
    }
}

/// The lower-case hexadecimal digit for a value below 16.
pub open spec fn hex_char(d: int) -> char {
    if d < 10 {
        (d + 48) as char
    } else {
        (d + 87) as char
    }
}

/// ASCII lower-casing of one character.
pub open spec fn lower_char(c: char) -> char {
    if 'A' <= c && c <= 'Z' {
        ((c as u32) + 32) as char
    } else {
        c
    }
}

pub open spec fn lower_text(s: Seq<char>) -> Seq<char> {
    Seq::new(s.len(), |i: int| lower_char(s[i]))
}

pub open spec fn has_hex_prefix(s: Seq<char>) -> bool {
    s.len() >= 2 && s[0] == '0' && s[1] == 'x'
}

/// The digits of a hexadecimal text, with one leading `0x` removed.
pub open spec fn hex_digits_of(s: Seq<char>) -> Seq<char> {
    if has_hex_prefix(s) {
        s.subrange(2, s.len() as int)
    } else {
        s
    }
}

pub open spec fn all_hex(s: Seq<char>) -> bool {
    forall|i: int| 0 <= i < s.len() ==> is_hex_digit(#[trigger] s[i])
}

/// The bytes that a sequence of hexadecimal digits stands for, two digits
/// per byte, high digit first.
pub open spec fn hex_decode(s: Seq<char>) -> Seq<u8> {
    Seq::new(
        s.len() / 2,
        |i: int| (16 * hex_value(s[2 * i]) + hex_value(s[2 * i + 1])) as u8,
    )
}

/// A well-formed account text: the prefix, then forty hexadecimal digits in
/// either case.
pub open spec fn is_address_text(s: Seq<char>) -> bool {
    s.len() == ADDRESS_TEXT_LEN && has_hex_prefix(s) && all_hex(s.subrange(2, s.len() as int))
}

/// The canonical text of an identifier: `0x`, then two lower-case digits per
/// byte.
pub open spec fn canonical_text(b: Seq<u8>) -> Seq<char> {
    seq!['0', 'x'] + Seq::new(
        2 * b.len(),
        |j: int|
            if j % 2 == 0 {
                hex_char((b[j / 2] / 16) as int)
            } else {
                hex_char((b[j / 2] % 16) as int)
            },
    )
}

/// A 20-byte account identifier.
#[derive(Clone, Copy, Debug, PartialEq, Eq)]
pub struct AccountIdentifier {
    pub bytes: [u8; 20],
}

impl View for AccountIdentifier {
    type V = Seq<u8>;

    open spec fn view(&self) -> Seq<u8> {
        self.bytes@
    }
}

/// A text that is not a well-formed account identifier.
#[derive(Clone, Copy, Debug, PartialEq, Eq, Structural)]
pub struct ValidationError;

/// Relies on `alloy_primitives::Address`'s `FromStr` (through const-hex's
/// `decode_to_array`): it strips one leading `0x`, accepts exactly forty hexadecimal digits in either case and
/// decodes them two per byte, high digit first.
#[verifier::external_body]
fn decode_address(s: &str) -> (r: Option<[u8; 20]>)
    ensures
        r.is_some() <==> (hex_digits_of(s@).len() == 40 && all_hex(hex_digits_of(s@))),
        r matches Some(b) ==> b@ == hex_decode(hex_digits_of(s@)),
{
    s.parse::<alloy_primitives::Address>().ok().map(|a| a.0 .0)
}

/// Parses the textual form of an account identifier: exactly 42 characters,
/// the prefix `0x`, then forty hexadecimal digits in either case.
pub fn parse_address(s: &str) -> (r: Result<AccountIdentifier, ValidationError>)
    ensures
        r.is_ok() <==> is_address_text(s@),
        r matches Ok(id) ==> id@ == hex_decode(s@.subrange(2, 42)),
        s@.len() != ADDRESS_TEXT_LEN ==> r.is_err(),
        (exists|i: int| 2 <= i < s@.len() && !is_hex_digit(s@[i])) ==> r.is_err(),
{
    if s.unicode_len() != ADDRESS_TEXT_LEN {
        return Err(ValidationError);
    }
    match decode_address(s) {
        Some(bytes) => {
            proof {
                let d = hex_digits_of(s@);
                assert(has_hex_prefix(s@));
                assert(d == s@.subrange(2, 42));
                assert forall|i: int| 2 <= i < s@.len() implies is_hex_digit(s@[i]) by {
                    assert(d[i - 2] == s@[i]);
                }
            }
            Ok(AccountIdentifier { bytes })
        },
        None => {
            proof {
                if is_address_text(s@) {
                    assert(hex_digits_of(s@) == s@.subrange(2, 42));
                }
            }
            Err(ValidationError)
        },
    }
}

/// The one-character text of a lower-case hexadecimal digit.
fn hex_digit_text(d: u8) -> (r: &'static str)
    requires
        d < 16,
    ensures
        r@ == seq![hex_char(d as int)],
{
    proof {
        reveal_strlit("0");
        reveal_strlit("1");
        reveal_strlit("2");
        reveal_strlit("3");
        reveal_strlit("4");
        reveal_strlit("5");
        reveal_strlit("6");
        reveal_strlit("7");
        reveal_strlit("8");
        reveal_strlit("9");
        reveal_strlit("a");
        reveal_strlit("b");
        reveal_strlit("c");
        reveal_strlit("d");
        reveal_strlit("e");
        reveal_strlit("f");
    }
    match d {
        0 => "0",
        1 => "1",
        2 => "2",
        3 => "3",
        4 => "4",
        5 => "5",
        6 => "6",
        7 => "7",
        8 => "8",
        9 => "9",
        10 => "a",
        11 => "b",
        12 => "c",
        13 => "d",
        14 => "e",
        _ => "f",
    }
}

impl AccountIdentifier {
    /// The canonical text: `0x` followed by forty lower-case hexadecimal
    /// digits.
    pub fn to_hex(&self) -> (r: String)
        ensures
            r@ == canonical_text(self@),
    {
        proof {
            reveal_strlit("0x");
        }
        let mut out = String::from_str("0x");
        let mut i: usize = 0;
        while i < ADDRESS_BYTES
            invariant
                i <= ADDRESS_BYTES,
                self@.len() == ADDRESS_BYTES,
                out@ == canonical_text(self@.subrange(0, i as int)),
            decreases ADDRESS_BYTES - i,
        {
            let b = self.bytes[i];
            let ghost before = out@;
            out.append(hex_digit_text(b / 16));
            out.append(hex_digit_text(b % 16));
            proof {
                let next = self@.subrange(0, i + 1);
                assert(out@ =~= canonical_text(next)) by {
                    assert(next[i as int] == b);
                    assert forall|k: int| 0 <= k < 2 * i implies
                        #[trigger] canonical_text(next)[k + 2] == before[k + 2] by {
                        assert(next[k / 2] == self@[k / 2]);
                    }
                }
            }
            i += 1;
        }
        proof {
            assert(self@.subrange(0, ADDRESS_BYTES as int) =~= self@);
        }
        out
    }
}

/// A hexadecimal digit maps back to its lower-case form.
proof fn lemma_hex_digit_lower(c: char)
    requires
        is_hex_digit(c),
    ensures
        0 <= hex_value(c) < 16,
        hex_char(hex_value(c)) == lower_char(c),
{
}

/// Parsing a well-formed account text and writing the identifier back out
/// gives the text with its letters lower-cased.
pub proof fn lemma_address_round_trip(s: Seq<char>)
    requires
        is_address_text(s),
    ensures
        canonical_text(hex_decode(s.subrange(2, 42))) == lower_text(s),
{
    let d = s.subrange(2, 42);
    let b = hex_decode(d);
    assert forall|j: int| 0 <= j < 40 implies #[trigger] canonical_text(b)[j + 2] == lower_char(
        s[j + 2],
    ) by {
        let q = j / 2;
        let hi = d[2 * q];
        let lo = d[2 * q + 1];
        assert(is_hex_digit(hi) && is_hex_digit(lo));
        lemma_hex_digit_lower(hi);
        lemma_hex_digit_lower(lo);
        let h = hex_value(hi);
        let l = hex_value(lo);
        assert(b[q] == (16 * h + l) as u8);
        assert((16 * h + l) / 16 == h && (16 * h + l) % 16 == l) by (nonlinear_arith)
            requires
                0 <= h < 16,
                0 <= l < 16,
        ;
        if j % 2 == 0 {
            assert(2 * q == j);
        } else {
            assert(2 * q + 1 == j);
        }
    }
    assert forall|k: int| 0 <= k < 42 implies #[trigger] canonical_text(b)[k] == lower_text(s)[k] by {
        if k >= 2 {
            assert(canonical_text(b)[(k - 2) + 2] == lower_char(s[(k - 2) + 2]));
        }
    }
    assert(canonical_text(b) =~= lower_text(s));
}

} // verus!
