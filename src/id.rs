use vstd::prelude::*;

verus! {

/// The lower-case hexadecimal digit of `d`, for `d < 16`.
pub open spec fn hex_char(d: u128) -> char {
    seq!['0', '1', '2', '3', '4', '5', '6', '7', '8', '9', 'a', 'b', 'c', 'd', 'e', 'f'][d as int]
}

/// The `i`-th of the 32 hexadecimal digits of `v`, most significant first.
pub open spec fn nibble(v: u128, i: int) -> u128 {
    (v >> ((124 - 4 * i) as u128)) & 15u128
}

/// The digits of `v` from position `from` up to, not including, `to`.
pub open spec fn hex_run(v: u128, from: int, to: int) -> Seq<char> {
    Seq::new((to - from) as nat, |j: int| hex_char(nibble(v, from + j)))
}

/// The text of the identifier with this 128-bit value: its 32 lower-case hexadecimal
/// digits, most significant first, in groups of 8, 4, 4, 4 and 12 joined by hyphens.
pub open spec fn uuid_text(v: u128) -> Seq<char> {
    hex_run(v, 0, 8) + seq!['-'] + hex_run(v, 8, 12) + seq!['-'] + hex_run(v, 12, 16) + seq!['-']
        + hex_run(v, 16, 20) + seq!['-'] + hex_run(v, 20, 32)
}

/// The 128-bit value that the `uuid` crate reads from a text, or `None` where the
/// text is not an identifier.
pub uninterp spec fn uuid_parse(s: Seq<char>) -> Option<u128>;

/// Relies on `uuid::Uuid::from_u128`, which keeps the value's bytes most significant
/// first, and the `Display` of `uuid::Uuid`: the hyphenated lower-case form, which
/// `uuid::Uuid::parse_str` reads back to the same value.
#[verifier::external_body]
fn format_uuid(v: u128) -> (r: String)
    ensures
        r@ == uuid_text(v),
        uuid_parse(r@) == Some(v),
{
    uuid::Uuid::from_u128(v).to_string()
}

/// Relies on `uuid::Uuid::parse_str`: the value of a well-formed identifier, else the
/// crate's error message; an empty text is never an identifier.
#[verifier::external_body]
fn parse_uuid(s: &str) -> (r: Result<u128, String>)
    ensures
        match r {
            Ok(v) => uuid_parse(s@) == Some(v),
            Err(_) => uuid_parse(s@) is None,
        },
        s@.len() == 0 ==> r is Err,
{
    match uuid::Uuid::parse_str(s) {
        Ok(u) => Ok(u.as_u128()),
        Err(e) => Err(e.to_string()),
    }
}

/// The identity of a user: an opaque 128-bit identifier, fixed at account creation.
#[derive(Clone, Copy, Debug, PartialEq, Eq, Hash, Structural)]
pub struct UserId {
    pub value: u128,
}

impl UserId {
    pub fn from_u128(value: u128) -> (r: UserId)
        ensures
            r.value == value,
    {
        UserId { value }
    }

    pub fn as_u128(&self) -> (r: u128)
        ensures
            r == self.value,
    {
        self.value
    }

    /// The text form of the identity, as stored in the token cache.
    pub fn to_string(&self) -> (r: String)
        ensures
            r@ == uuid_text(self.value),
            uuid_parse(r@) == Some(self.value),
    {
        format_uuid(self.value)
    }

    /// Reads an identity back from its text form; the error holds the reason.
    pub fn parse_str(s: &str) -> (r: Result<UserId, String>)
        ensures
            match r {
                Ok(u) => uuid_parse(s@) == Some(u.value),
                Err(_) => uuid_parse(s@) is None,
            },
    {
        match parse_uuid(s) {
            Ok(v) => Ok(UserId { value: v }),
            Err(m) => Err(m),
        }
    }
}

} // verus!
