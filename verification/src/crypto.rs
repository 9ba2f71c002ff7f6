//! Trusted bridge to the password-hashing and randomness primitives.
//!
//! The digest relation is a named, uninterpreted function: what matters to
//! the rest of the library is only that a digest produced from one
//! password-salt pair matches exactly that pair (within the primitive's
//! 72-byte, NUL-free input window) and that verification is deterministic.

use vstd::prelude::*;

verus! {

use vstd::utf8::is_ascii_chars;

/// What `bcrypt::verify` returns for the concatenation of a password and a
/// salt, held against a digest. A function of its three arguments alone.
pub uninterp spec fn digest_matches(password: Seq<char>, salt: Seq<char>, digest: Seq<char>) -> bool;

/// No NUL character anywhere. bcrypt terminates its key with a NUL and
/// cycles it, so inputs that differ only in trailing NULs can collide;
/// the uniqueness clause below therefore holds only of NUL-free inputs.
pub open spec fn nul_free(s: Seq<char>) -> bool {
    forall|i: int| 0 <= i < s.len() ==> #[trigger] s[i] != '\0'
}

/// A password inside the window where the hash distinguishes every pair of
/// distinct passwords: ASCII without NUL, at most 36 characters, so that
/// password and the 36-character salt together stay inside bcrypt's
/// 72-byte limit.
pub open spec fn password_within_limit(p: Seq<char>) -> bool {
    is_ascii_chars(p) && nul_free(p) && p.len() <= 36
}

/// Relies on `bcrypt::hash` with the default cost: the digest it returns
/// matches (under `bcrypt::verify`) the exact password-salt input it was
/// computed from, and no other input within bcrypt's window — NUL-free
/// ASCII, at most 72 bytes in all, where neither truncation nor bcrypt's
/// NUL-terminated key cycling can identify two distinct inputs. The salt
/// embedded by bcrypt itself is random, so the digest string is not a
/// function of the arguments and is not named.
#[verifier::external_body]
pub(crate) fn hash_salted(password: &str, salt: &str) -> (r: Option<String>)
    ensures
        r matches Some(d) ==> digest_matches(password@, salt@, d@),
        r matches Some(d) ==> forall|q: Seq<char>|
            #![trigger digest_matches(q, salt@, d@)]
            password_within_limit(password@) && is_ascii_chars(salt@) && nul_free(salt@)
                && salt@.len() == 36 && password_within_limit(q) && q != password@
                ==> !digest_matches(q, salt@, d@),
{
    bcrypt::hash(format!("{}{}", password, salt), bcrypt::DEFAULT_COST).ok()
}

/// Relies on `bcrypt::verify`: its result is a function of the password-salt
/// input and the digest alone; a malformed digest reads as no match.
#[verifier::external_body]
pub(crate) fn verify_salted(password: &str, salt: &str, digest: &str) -> (r: bool)
    ensures
        r == digest_matches(password@, salt@, digest@),
{
    bcrypt::verify(format!("{}{}", password, salt), digest).unwrap_or(false)
}

/// Relies on `uuid::Uuid::new_v4` and its display form: a hyphenated
/// lowercase-hex UUID, exactly 36 ASCII characters drawn from `0-9a-f-`,
/// so in particular NUL-free. The value is random, so nothing more is
/// promised of it.
#[verifier::external_body]
pub(crate) fn fresh_salt() -> (r: String)
    ensures
        r@.len() == 36,
        is_ascii_chars(r@),
        nul_free(r@),
{
    uuid::Uuid::new_v4().to_string()
}

} // verus!
