//! Actor identifiers: 128-bit random ids and their hyphenated text form.
use vstd::prelude::*;

verus! {

/// The identity of one actor, as the 128-bit value of its UUID.
#[derive(Clone, Copy, PartialEq, Eq, Structural, Debug, Hash)]
pub struct ActorId(pub u128);

/// How many random ids a spawn draws before it gives up on finding a fresh one.
pub const MAX_DRAWS: u32 = 16;

/// The lowercase hexadecimal digits.
pub open spec fn hex_digits() -> Seq<char> {
    seq!['0', '1', '2', '3', '4', '5', '6', '7', '8', '9', 'a', 'b', 'c', 'd', 'e', 'f']
}

/// The `j`-th of the 32 hex digits of `v`, most significant first.
pub open spec fn nibble(v: u128, j: int) -> int {
    ((v >> ((124 - 4 * j) as u128)) & 15u128) as int
}

/// How many hyphens come before position `i` of the hyphenated form.
pub open spec fn hyphens_before(i: int) -> int {
    if i > 23 {
        4
    } else if i > 18 {
        3
    } else if i > 13 {
        2
    } else if i > 8 {
        1
    } else {
        0
    }
}

/// The hyphenated form of a UUID: 32 lowercase hex digits, most significant
/// first, in groups of 8-4-4-4-12 separated by `-`.
pub open spec fn hyphenated(v: u128) -> Seq<char> {
    Seq::new(
        36,
        |i: int|
            if i == 8 || i == 13 || i == 18 || i == 23 {
                '-'
            } else {
                hex_digits()[nibble(v, i - hyphens_before(i))]
            },
    )
}

/// Relies on uuid::Uuid::new_v4: a random version-4 UUID, read back as its
/// 128-bit value with Uuid::as_u128. Nothing is known of the value drawn.
#[verifier::external_body]
pub(crate) fn random_id() -> (r: ActorId) {
    ActorId(uuid::Uuid::new_v4().as_u128())
}

/// Relies on uuid's Display for Uuid (the hyphenated lowercase form) of the
/// UUID that Uuid::from_u128 builds from the value.
#[verifier::external_body]
fn uuid_text(v: u128) -> (r: String)
    ensures
        r@ == hyphenated(v),
{
    uuid::Uuid::from_u128(v).to_string()
}

impl ActorId {
    /// The id in its hyphenated text form, as it appears on the wire.
    pub fn text(&self) -> (r: String)
        ensures
            r@ == hyphenated(self.0),
    {
        uuid_text(self.0)
    }
}

} // verus!
