use vstd::prelude::*;
use crate::post::{PostId, RepoError};

verus! {

/// The lowercase hexadecimal digit of value `d` (below 16).
pub open spec fn hex_char(d: nat) -> char {
    seq!['0', '1', '2', '3', '4', '5', '6', '7', '8', '9', 'a', 'b', 'c', 'd', 'e', 'f'][d as int]
}

/// The last `n` hexadecimal digits of `v`, most significant first.
pub open spec fn hex_digits(v: nat, n: nat) -> Seq<char>
    decreases n,
{
    if n == 0 {
        Seq::empty()
    } else {
        hex_digits(v / 16, (n - 1) as nat).push(hex_char(v % 16))
    }
}

/// The canonical text of a UUID: its 32 hexadecimal digits, most significant
/// first, in groups of 8, 4, 4, 4 and 12 joined by hyphens.
pub open spec fn uuid_text(v: u128) -> Seq<char> {
    let h = hex_digits(v as nat, 32);
    h.subrange(0, 8) + seq!['-'] + h.subrange(8, 12) + seq!['-'] + h.subrange(12, 16) + seq!['-']
        + h.subrange(16, 20) + seq!['-'] + h.subrange(20, 32)
}

/// The value that uuid's parser reads from a text, if it accepts it.
pub uninterp spec fn uuid_parse_of(s: Seq<char>) -> Option<u128>;

/// Relies on uuid::Uuid::new_v4 (with Uuid::as_u128): a random version-4
/// UUID. Nothing is promised of its value. (uuid panics where the operating
/// system's random source fails.)
#[verifier::external_body]
pub(crate) fn fresh_post_id() -> (r: PostId) {
    PostId { value: uuid::Uuid::new_v4().as_u128() }
}

/// Relies on uuid::Uuid::parse_str (with Uuid::as_u128): the UUID written in
/// `s`, if `s` holds one in any of the forms the uuid crate accepts, among
/// them the canonical hyphenated form that it writes.
#[verifier::external_body]
fn parse_uuid(s: &str) -> (r: Option<u128>)
    ensures
        r == uuid_parse_of(s@),
        forall|v: u128| #[trigger] uuid_text(v) == s@ ==> r == Some(v),
{
    uuid::Uuid::parse_str(s).ok().map(|u| u.as_u128())
}

/// Relies on uuid::Uuid::from_u128 and the Display of uuid's Hyphenated:
/// the canonical lowercase hyphenated text of the UUID.
#[verifier::external_body]
fn uuid_to_text(v: u128) -> (r: String)
    ensures
        r@ == uuid_text(v),
{
    uuid::Uuid::from_u128(v).hyphenated().to_string()
}

/// Reads a post id from its text: `InvalidInput` when the text holds no UUID.
pub fn parse_post_id(text: &str) -> (r: Result<PostId, RepoError>)
    ensures
        match uuid_parse_of(text@) {
            Some(v) => r == Ok::<PostId, RepoError>(PostId { value: v }),
            None => r == Err::<PostId, RepoError>(RepoError::InvalidInput),
        },
        forall|v: u128|
            #[trigger] uuid_text(v) == text@ ==> r == Ok::<PostId, RepoError>(PostId { value: v }),
{
    match parse_uuid(text) {
        Some(v) => Ok(PostId { value: v }),
        None => Err(RepoError::InvalidInput),
    }
}

impl PostId {
    /// The canonical text of this id (see `uuid_text`).
    pub fn to_text(&self) -> (r: String)
        ensures
            r@ == uuid_text(self.value),
    {
        uuid_to_text(self.value)
    }
}

} // verus!
