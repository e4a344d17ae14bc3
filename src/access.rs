use vstd::prelude::*;

use crate::status::ConnectionState;
use crate::text::{chars_of, contains, contains_text, trim, trim_bounds};

verus! {

/// The lowercase hexadecimal SHA-256 digest of the UTF-8 bytes of a text.
pub uninterp spec fn sha256_hex(s: Seq<char>) -> Seq<char>;

/// Relies on `sha256::digest` for `&str`: the hex digest of the string's bytes, which depends
/// on those bytes alone.
#[verifier::external_body]
pub fn hash_password(password: &str) -> (r: String)
    ensures
        r@ == sha256_hex(password@),
{
    sha256::digest(password)
}

/// Whether a session in state `auth` may read or write `file`: nobody before logging in or
/// after quitting; anyone logged in (anonymously too) under a path naming "public" or "shared";
/// otherwise only a user logged in with a password.
pub open spec fn may_access(file: Seq<char>, auth: ConnectionState) -> bool {
    match auth {
        ConnectionState::Disconnected | ConnectionState::NotLoggedIn => false,
        ConnectionState::LoggedIn => true,
        ConnectionState::Annonymous => contains(file, "public"@) || contains(file, "shared"@),
    }
}

/// The access-control gate for file transfers.
pub fn auth_can_access_file(file: &str, auth_state: ConnectionState) -> (r: bool)
    ensures
        r == may_access(file@, auth_state),
{
    if auth_state == ConnectionState::Disconnected || auth_state == ConnectionState::NotLoggedIn {
        return false;
    }
    if contains_text(file, "public") || contains_text(file, "shared") {
        return true;
    }
    auth_state == ConnectionState::LoggedIn
}

/// Whether a password matches a credential record: the digest of the password and the
/// record's text agree once both are trimmed. A missing record matches nothing.
pub open spec fn password_matches(password: Seq<char>, record: Option<Seq<char>>) -> bool {
    match record {
        Some(text) => trim(sha256_hex(password)) == trim(text),
        None => false,
    }
}

/// Whether two texts agree once both are trimmed.
pub fn same_trimmed(a: &str, b: &str) -> (r: bool)
    ensures
        r == (trim(a@) == trim(b@)),
{
    let va = chars_of(a);
    let vb = chars_of(b);
    let (a0, a1) = trim_bounds(&va);
    let (b0, b1) = trim_bounds(&vb);
    let ghost ta = trim(a@);
    let ghost tb = trim(b@);
    if a1 - a0 != b1 - b0 {
        assert(ta.len() != tb.len());
        return false;
    }
    let n = a1 - a0;
    let mut i: usize = 0;
    while i < n
        invariant
            a0 + n == a1 <= va.len(),
            b0 + n == b1 <= vb.len(),
            i <= n,
            va@ == a@,
            vb@ == b@,
            ta == trim(a@),
            tb == trim(b@),
            ta == va@.subrange(a0 as int, a1 as int),
            tb == vb@.subrange(b0 as int, b1 as int),
            forall|j: int| 0 <= j < i ==> #[trigger] ta[j] == tb[j],
        decreases n - i,
    {
        if va[a0 + i] != vb[b0 + i] {
            assert(ta[i as int] != tb[i as int]);
            assert(trim(a@) != trim(b@));
            return false;
        }
        i = i + 1;
    }
    assert(ta =~= tb);
    true
}

/// Checks a password against the credential record kept for the user, if there is one.
pub fn check_password(password: &str, record: Option<&str>) -> (r: bool)
    ensures
        r == password_matches(
            password@,
            match record {
                Some(t) => Some(t@),
                None => None,
            },
        ),
{
    match record {
        Some(text) => {
            let digest = hash_password(password);
            same_trimmed(digest.as_str(), text)
        },
        None => false,
    }
}

/// Checks a password's digest, computed beforehand, against a credential record.
pub fn digest_matches(digest: &str, record: Option<&str>) -> (r: bool)
    ensures
        r == match record {
            Some(t) => trim(digest@) == trim(t@),
            None => false,
        },
{
    match record {
        Some(text) => same_trimmed(digest, text),
        None => false,
    }
}

} // verus!
