use vstd::prelude::*;

verus! {

/// What `uuid::Uuid::parse_str` yields for a text, as the 128-bit value of the
/// identifier, or `None` where the text is not a well-formed identifier.
pub uninterp spec fn parsed_uuid(s: Seq<char>) -> Option<u128>;

/// Sixteen to the power `k`.
pub open spec fn pow16(k: nat) -> int
    decreases k,
{
    if k == 0 {
        1
    } else {
        16 * pow16((k - 1) as nat)
    }
}

/// The `i`-th of the 32 hexadecimal digits of `v`, the most significant first.
pub open spec fn nibble(v: u128, i: int) -> int {
    (v as int / pow16((31 - i) as nat)) % 16
}

/// The lower-case hexadecimal digit for `d` in `0..16`.
pub open spec fn hex_digit(d: int) -> char {
    "0123456789abcdef"@[d]
}

/// How many hyphens come before position `p` of the hyphenated text.
pub open spec fn hyphens_before(p: int) -> int {
    if p < 8 {
        0
    } else if p < 13 {
        1
    } else if p < 18 {
        2
    } else if p < 23 {
        3
    } else {
        4
    }
}

/// The hyphenated text of a 128-bit value: its 32 lower-case hexadecimal
/// digits, the most significant first, in groups of 8, 4, 4, 4 and 12
/// separated by hyphens at positions 8, 13, 18 and 23.
pub open spec fn hyphenated_text(v: u128) -> Seq<char> {
    Seq::new(
        36,
        |p: int|
            if p == 8 || p == 13 || p == 18 || p == 23 {
                '-'
            } else {
                hex_digit(nibble(v, p - hyphens_before(p)))
            },
    )
}

/// Whether `t` has the syntax of a hyphenated lower-case identifier: 36
/// characters, hyphens at positions 8, 13, 18 and 23, and lower-case
/// hexadecimal digits everywhere else.
pub open spec fn is_hyphenated_uuid_text(t: Seq<char>) -> bool {
    &&& t.len() == 36
    &&& forall|p: int|
        0 <= p < 36 ==> if p == 8 || p == 13 || p == 18 || p == 23 {
            #[trigger] t[p] == '-'
        } else {
            "0123456789abcdef"@.contains(t[p])
        }
}

/// Whether `c` is a hexadecimal digit of either case.
pub open spec fn is_hex_char(c: char) -> bool {
    "0123456789abcdefABCDEF"@.contains(c)
}

/// `c` with an upper-case hexadecimal letter made lower-case.
pub open spec fn lower_hex_char(c: char) -> char {
    if c == 'A' {
        'a'
    } else if c == 'B' {
        'b'
    } else if c == 'C' {
        'c'
    } else if c == 'D' {
        'd'
    } else if c == 'E' {
        'e'
    } else if c == 'F' {
        'f'
    } else {
        c
    }
}

/// `t` with its upper-case hexadecimal letters made lower-case.
pub open spec fn lower_hex_text(t: Seq<char>) -> Seq<char> {
    t.map_values(|c: char| lower_hex_char(c))
}

/// Whether `t` is a hyphenated identifier whose digits may be of either case,
/// as the host writes them.
pub open spec fn is_hyphenated_hex_text(t: Seq<char>) -> bool {
    &&& t.len() == 36
    &&& forall|p: int|
        0 <= p < 36 ==> if p == 8 || p == 13 || p == 18 || p == 23 {
            #[trigger] t[p] == '-'
        } else {
            is_hex_char(t[p])
        }
}

proof fn lemma_pow16_positive(k: nat)
    ensures
        pow16(k) > 0,
    decreases k,
{
    if k > 0 {
        lemma_pow16_positive((k - 1) as nat);
    }
}

/// The text written for any value is a hyphenated lower-case identifier.
pub proof fn lemma_hyphenated_text_syntax(v: u128)
    ensures
        is_hyphenated_uuid_text(hyphenated_text(v)),
{
    reveal_strlit("0123456789abcdef");
    let t = hyphenated_text(v);
    assert forall|p: int| 0 <= p < 36 && !(p == 8 || p == 13 || p == 18 || p == 23) implies
        "0123456789abcdef"@.contains(#[trigger] t[p]) by {
        let i = p - hyphens_before(p);
        lemma_pow16_positive((31 - i) as nat);
        let d = nibble(v, i);
        assert(0 <= d < 16);
        assert("0123456789abcdef"@[d] == t[p]);
    }
}

/// Relies on `uuid::Uuid::parse_str` (and `Uuid::as_u128`): the value of a
/// well-formed identifier text, `None` for any other text. A 36-character
/// hyphenated text is read by `parse_hyphenated`, whose hexadecimal digits may
/// be of either case: its value is the one whose lower-case text it is.
#[verifier::external_body]
fn parse_uuid_text(s: &str) -> (r: Option<u128>)
    ensures
        r == parsed_uuid(s@),
        is_hyphenated_hex_text(s@) ==> r is Some,
        is_hyphenated_hex_text(s@) ==> hyphenated_text(r->0) == lower_hex_text(s@),
{
    uuid::Uuid::parse_str(s).ok().map(|u| u.as_u128())
}

/// Relies on `uuid::Uuid::from_u128` and the `Display` of `Uuid`, which writes
/// the 36-character hyphenated lower-case hexadecimal form of the value's bytes
/// in order; `parse_str` accepts that form and gives back the same value.
#[verifier::external_body]
fn format_uuid(v: u128) -> (r: String)
    ensures
        r@ == hyphenated_text(v),
        r@.len() == 36,
        parsed_uuid(r@) == Some(v),
{
    uuid::Uuid::from_u128(v).to_string()
}

/// The identity of a process tap: a 128-bit universally unique identifier.
#[derive(Clone, Copy, Debug, PartialEq, Eq, Structural)]
pub struct TapUuid {
    pub value: u128,
}

impl TapUuid {
    /// Reads an identifier from its text form; `None` where the text is not one.
    pub fn parse(s: &str) -> (r: Option<TapUuid>)
        ensures
            r == (match parsed_uuid(s@) {
                Some(v) => Some(TapUuid { value: v }),
                None => None::<TapUuid>,
            }),
            is_hyphenated_hex_text(s@) ==> (r matches Some(u) && hyphenated_text(u.value)
                == lower_hex_text(s@)),
    {
        match parse_uuid_text(s) {
            Some(v) => Some(TapUuid { value: v }),
            None => None,
        }
    }

    /// The hyphenated text of the identifier, as handed to the host.
    pub fn to_hyphenated(&self) -> (r: String)
        ensures
            r@ == hyphenated_text(self.value),
            r@.len() == 36,
            parsed_uuid(r@) == Some(self.value),
    {
        format_uuid(self.value)
    }
}

} // verus!
