//! Generation of the authentication token: the hyphenated text of a
//! freshly generated random version-4 UUID. A token is created in memory
//! at the start of the workflow that needs it and is never read back
//! from any store.

use vstd::prelude::*;

verus! {

/// A lowercase hexadecimal digit, the only characters a token holds
/// besides its four fixed hyphens.
pub open spec fn is_lower_hex_digit(c: char) -> bool {
    ('0' <= c && c <= '9') || ('a' <= c && c <= 'f')
}

/// The hyphenated textual form of a version-4 UUID: 36 characters,
/// hyphens at the four fixed positions, lowercase hexadecimal digits
/// everywhere else, and the version nibble reading `4`.
pub open spec fn is_uuid_text(s: Seq<char>) -> bool {
    &&& s.len() == 36
    &&& s[8] == '-'
    &&& s[13] == '-'
    &&& s[18] == '-'
    &&& s[23] == '-'
    &&& s[14] == '4'
    &&& forall|i: int|
        0 <= i < 36 && i != 8 && i != 13 && i != 18 && i != 23 ==> is_lower_hex_digit(
            #[trigger] s[i],
        )
}

/// Relies on uuid::Uuid::new_v4 together with uuid's Display impl:
/// new_v4 draws a random version-4 UUID (its version nibble is 4), and
/// Display renders it in the hyphenated lowercase-hexadecimal form.
/// The value is random, so nothing beyond the shape is stated.
#[verifier::external_body]
fn fresh_uuid_text() -> (r: String)
    ensures
        is_uuid_text(r@),
{
    uuid::Uuid::new_v4().to_string()
}

/// Generates the authentication token for one run. Every Provision and
/// RotateCredentials run calls this exactly once; no token is ever
/// reused or read back from anywhere.
pub fn generate_auth_token() -> (r: String)
    ensures
        is_uuid_text(r@),
{
    fresh_uuid_text()
}

/// A well-formed token text is never empty: it has exactly 36 characters.
pub proof fn lemma_uuid_text_nonempty(s: Seq<char>)
    requires
        is_uuid_text(s),
    ensures
        s.len() == 36,
        s.len() > 0,
{
}

} // verus!
