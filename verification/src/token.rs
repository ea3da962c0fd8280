//! Statement tokens: the opaque names under which prepared statements are
//! handed to callers.
//!
//! A token is a fixed prefix followed by a ULID in its text form. The ULID
//! is drawn from the clock and a random source, so nothing here proves that
//! two tokens differ; what is proved is that tokens differ wherever their
//! ULIDs do.

use vstd::prelude::*;

verus! {

/// The number of characters in the text form of a ULID.
pub const ULID_LEN: usize = 26;

/// The prefix that every statement token starts with.
pub open spec fn token_prefix() -> Seq<char> {
    "prepared-statement-"@
}

/// A character of Crockford's base 32: a digit or a capital letter other
/// than I, L, O and U.
pub open spec fn is_crockford(c: char) -> bool {
    ('0' <= c <= '9') || ('A' <= c <= 'Z' && c != 'I' && c != 'L' && c != 'O' && c != 'U')
}

/// The text form of some ULID.
pub open spec fn is_ulid_text(s: Seq<char>) -> bool {
    &&& s.len() == ULID_LEN
    &&& forall|i: int| 0 <= i < s.len() ==> is_crockford(#[trigger] s[i])
}

/// The token made from the ULID text `ulid`.
pub open spec fn token_of(ulid: Seq<char>) -> Seq<char> {
    token_prefix() + ulid
}

/// A token as the gateway mints them.
pub open spec fn is_statement_token(s: Seq<char>) -> bool {
    exists|ulid: Seq<char>| is_ulid_text(ulid) && s == #[trigger] token_of(ulid)
}

/// `Ulid::new` of the ulid crate, in the text form that its `to_string`
/// gives: 26 characters, each from the alphabet of Crockford's base 32.
/// Which ones depends on the clock and on a random source.
#[verifier::external_body]
fn new_ulid_text() -> (r: String)
    ensures
        is_ulid_text(r@),
{
    ulid::Ulid::new().to_string()
}

/// The token made from the ULID text `ulid`.
pub fn token_from(ulid: &str) -> (token: String)
    ensures
        token@ == token_of(ulid@),
{
    String::from_str("prepared-statement-").concat(ulid)
}

/// Mints a token from a new ULID.
pub fn fresh_token() -> (token: String)
    ensures
        is_statement_token(token@),
{
    let ulid = new_ulid_text();
    token_from(ulid.as_str())
}

/// Tokens made from different ULIDs are different, and a token gives its
/// ULID back.
pub proof fn law_token_names_its_ulid(a: Seq<char>, b: Seq<char>)
    ensures
        token_of(a) == token_of(b) ==> a == b,
        token_of(a).skip(token_prefix().len() as int) == a,
        token_prefix().is_prefix_of(token_of(a)),
{
    let n = token_prefix().len() as int;
    assert(token_of(a).skip(n) =~= a);
    assert(token_of(b).skip(n) =~= b);
}

} // verus!
