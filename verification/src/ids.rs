//! Stable identities: UUIDs as 128-bit values, and peer identities built on them.

use uuid::Uuid;
use vstd::prelude::*;

verus! {

/// A UUID as the `uuid` crate represents it; proofs see it through `uuid_value`.
#[verifier::external_type_specification]
#[verifier::external_body]
pub struct ExUuid(Uuid);

/// The 128-bit value of a UUID, as `Uuid::as_u128` returns it.
pub uninterp spec fn uuid_value(u: Uuid) -> u128;

/// What `Uuid::parse_str` makes of a string: the UUID's 128-bit value, or
/// `None` when the string is no UUID in any format the crate accepts.
pub uninterp spec fn uuid_parse(text: Seq<char>) -> Option<u128>;

/// The lowercase hexadecimal digit for a value below 16.
pub open spec fn hex_digit(d: int) -> char {
    if d < 10 { ((d + 48) as u8) as char } else { ((d + 87) as u8) as char }
}

/// The `i`-th of the 32 hexadecimal digits of `v`, most significant first.
pub open spec fn uuid_hex_digit(v: u128, i: int) -> char {
    hex_digit((v as int / vstd::arithmetic::power::pow(16, (31 - i) as nat)) % 16)
}

/// The hyphenated lowercase form of a UUID value: 32 hexadecimal digits,
/// most significant first, in groups of 8, 4, 4, 4 and 12 joined by `-`.
pub open spec fn uuid_hyphenated(v: u128) -> Seq<char> {
    Seq::new(32, |i: int| uuid_hex_digit(v, i)).subrange(0, 8) + seq!['-']
        + Seq::new(32, |i: int| uuid_hex_digit(v, i)).subrange(8, 12) + seq!['-']
        + Seq::new(32, |i: int| uuid_hex_digit(v, i)).subrange(12, 16) + seq!['-']
        + Seq::new(32, |i: int| uuid_hex_digit(v, i)).subrange(16, 20) + seq!['-']
        + Seq::new(32, |i: int| uuid_hex_digit(v, i)).subrange(20, 32)
}

/// Calls `Uuid::as_u128`, which returns the UUID's 128-bit value.
#[verifier::external_body]
pub(crate) fn uuid_to_u128(u: Uuid) -> (v: u128)
    ensures
        v == uuid_value(u),
{
    u.as_u128()
}

/// Calls `Uuid::from_u128`, which builds the UUID whose 128-bit value is `v`.
#[verifier::external_body]
pub(crate) fn uuid_from_u128(v: u128) -> (u: Uuid)
    ensures
        uuid_value(u) == v,
{
    Uuid::from_u128(v)
}

/// Calls `Uuid::new_v4`, which draws a random version-4 UUID; nothing is
/// known of the value returned.
#[verifier::external_body]
pub(crate) fn random_uuid_value() -> (v: u128) {
    Uuid::new_v4().as_u128()
}

/// Calls `Uuid::parse_str` and returns the parsed UUID's 128-bit value, or
/// `None` when parsing fails.
#[verifier::external_body]
pub(crate) fn parse_uuid(text: &str) -> (v: Option<u128>)
    ensures
        v == uuid_parse(text@),
{
    match Uuid::parse_str(text) {
        Ok(u) => Some(u.as_u128()),
        Err(_) => None,
    }
}

/// Formats a UUID value with `Uuid::hyphenated`, which writes its 32 lowercase
/// hexadecimal digits in groups of 8-4-4-4-12; `Uuid::parse_str` reads that
/// text back as the same value.
#[verifier::external_body]
pub(crate) fn format_uuid(v: u128) -> (text: String)
    ensures
        text@ == uuid_hyphenated(v),
        uuid_parse(text@) == Some(v),
{
    Uuid::from_u128(v).hyphenated().to_string()
}

/// Stable peer identity independent of a peer's current IP address.
#[derive(Clone, Copy, Debug, PartialEq, Eq, Hash, Structural)]
pub struct PeerId {
    value: u128,
}

impl PeerId {
    /// The 128-bit UUID value of this identity.
    pub closed spec fn spec_value(self) -> u128 {
        self.value
    }

    /// Creates a fresh, random peer identity.
    pub fn new() -> (id: Self) {
        PeerId { value: random_uuid_value() }
    }

    /// Returns the underlying UUID.
    pub fn as_uuid(self) -> (u: Uuid)
        ensures
            uuid_value(u) == self.spec_value(),
    {
        uuid_from_u128(self.value)
    }

    /// Creates an identity from a persisted or received UUID.
    pub fn from_uuid(uuid: Uuid) -> (id: Self)
        ensures
            id.spec_value() == uuid_value(uuid),
    {
        PeerId { value: uuid_to_u128(uuid) }
    }

    /// Creates an identity from a UUID's 128-bit value.
    pub fn from_u128(value: u128) -> (id: Self)
        ensures
            id.spec_value() == value,
    {
        PeerId { value }
    }

    /// Returns the UUID's 128-bit value.
    pub fn as_u128(self) -> (value: u128)
        ensures
            value == self.spec_value(),
    {
        self.value
    }

    /// Law: an identity is determined by its UUID value.
    pub proof fn lemma_value_determines(a: Self, b: Self)
        requires
            a.spec_value() == b.spec_value(),
        ensures
            a == b,
    {
    }
}

impl Default for PeerId {
    fn default() -> (id: Self) {
        Self::new()
    }
}

} // verus!
