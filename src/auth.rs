//! Operator authentication: HTTP Basic credentials, checked against the
//! stored salted password hashes.

use vstd::prelude::*;
use vstd::string::*;
use vstd::utf8::{decode_utf8, valid_utf8};
use argon2::PasswordVerifier;
use base64::Engine;
use crate::store::{StoreModel, SubscriberStore};
use crate::text::prefixed;

verus! {

/// The errors of authentication. The two ways in which credentials can be
/// wrong, an unknown username and a wrong password, are one variant.
#[derive(Debug)]
pub enum AuthError {
    InvalidCredentials,
    UnexpectedError(String),
}

impl AuthError {
    /// 401 for refused credentials, 500 otherwise.
    pub fn status_code(&self) -> (r: u16)
        ensures
            r == (match self {
                AuthError::InvalidCredentials => 401u16,
                AuthError::UnexpectedError(_) => 500u16,
            }),
    {
        match self {
            AuthError::InvalidCredentials => 401,
            AuthError::UnexpectedError(_) => 500,
        }
    }

    /// A description of the error.
    pub fn message(&self) -> (r: String)
        ensures
            r@ == (match self {
                AuthError::InvalidCredentials => "Invalid credentials"@,
                AuthError::UnexpectedError(e) => "Unexpected error: "@ + e@,
            }),
    {
        match self {
            AuthError::InvalidCredentials => String::from_str("Invalid credentials"),
            AuthError::UnexpectedError(e) => prefixed("Unexpected error: ", e),
        }
    }
}

/// A username and the password offered with it.
pub struct Credentials {
    pub username: String,
    pub password: String,
}

/// The query of the login page.
#[derive(Debug)]
pub struct QueryParams {
    pub error: Option<String>,
}

/// What `base64`'s standard engine decodes `s` to, if it is well formed.
pub uninterp spec fn base64_decoded(s: Seq<char>) -> Option<Seq<u8>>;

/// Whether Argon2 verification accepts `password` against the PHC string
/// `hash`.
pub uninterp spec fn argon2_accepts(hash: Seq<char>, password: Seq<char>) -> bool;

/// Relies on `base64::engine::general_purpose::STANDARD.decode`, which
/// decodes padded standard-alphabet base64 and fails on anything else.
#[verifier::external_body]
fn decode_base64(s: &str) -> (r: Option<Vec<u8>>)
    ensures
        r matches Some(b) ==> base64_decoded(s@) == Some(b@),
        r is None ==> base64_decoded(s@) is None,
{
    base64::engine::general_purpose::STANDARD.decode(s).ok()
}

/// Relies on `String::from_utf8`, which succeeds exactly on valid UTF-8 and
/// then holds the decoded characters.
#[verifier::external_body]
fn utf8_string(bytes: Vec<u8>) -> (r: Option<String>)
    ensures
        r is Some <==> valid_utf8(bytes@),
        r matches Some(s) ==> s@ == decode_utf8(bytes@),
{
    String::from_utf8(bytes).ok()
}

/// Relies on `argon2::Argon2::verify_password`, after `PasswordHash::new`
/// has parsed the PHC string; a string that does not parse verifies
/// nothing.
#[verifier::external_body]
fn verify_password_hash(hash: &str, password: &str) -> (r: bool)
    ensures
        r == argon2_accepts(hash@, password@),
{
    match argon2::PasswordHash::new(hash) {
        Ok(parsed) => argon2::Argon2::default().verify_password(password.as_bytes(), &parsed).is_ok(),
        Err(_) => false,
    }
}

/// A valid Argon2 hash of no account's password. Checking a password
/// against it costs as much as against a real one, so that an unknown
/// username is not answered faster than a wrong password.
pub const DUMMY_HASH: &'static str = "$argon2id$v=19$m=15000,t=2,p=1$gZiV/M1gPc22ElAH/Jh1Hw$CWOrkoo7oJBQ/iyh7uJ0LO2aLEfrHwTWllSAxT0zRno";

pub open spec fn basic_scheme() -> Seq<char> {
    "Basic "@
}

/// `k` is the position of the first colon of `text`.
pub open spec fn is_first_colon(text: Seq<char>, k: int) -> bool {
    0 <= k < text.len() && text[k] == ':' && forall|j: int| 0 <= j < k ==> text[j] != ':'
}

/// `text` split at its first colon into username and password.
pub open spec fn split_credentials(text: Seq<char>) -> Option<(Seq<char>, Seq<char>)> {
    if exists|k: int| is_first_colon(text, k) {
        let k = choose|k: int| is_first_colon(text, k);
        Some((text.subrange(0, k), text.subrange(k + 1, text.len() as int)))
    } else {
        None
    }
}

/// The username and password that a Basic `Authorization` header value
/// carries, if it is well formed.
pub open spec fn credentials_of_header(h: Seq<char>) -> Option<(Seq<char>, Seq<char>)> {
    if h.len() >= 6 && h.subrange(0, 6) == basic_scheme() {
        match base64_decoded(h.subrange(6, h.len() as int)) {
            Some(bytes) => if valid_utf8(bytes) {
                split_credentials(decode_utf8(bytes))
            } else {
                None
            },
            None => None,
        }
    } else {
        None
    }
}

/// The id of the operator whose stored hash accepts `password`, if any.
pub open spec fn credentials_check(m: StoreModel, username: Seq<char>, password: Seq<char>) -> Option<u64> {
    match m.user_named(username) {
        Some(u) => if argon2_accepts(u.password_hash, password) {
            Some(u.id)
        } else {
            None
        },
        None => None,
    }
}

/// The operator that a request authenticates as, given its
/// `Authorization` header value.
pub open spec fn request_operator(m: StoreModel, authorization: Option<&String>) -> Option<u64> {
    match authorization {
        Some(h) => match credentials_of_header(h@) {
            Some((u, p)) => credentials_check(m, u, p),
            None => None,
        },
        None => None,
    }
}

/// Splits decoded credentials at the first colon.
pub fn credentials_from_text(text: &String) -> (r: Result<Credentials, String>)
    ensures
        split_credentials(text@) matches Some((u, p)) ==> (r matches Ok(c) && c.username@ == u
            && c.password@ == p),
        split_credentials(text@) is None ==> (r matches Err(m) && m@ == "Password missing"@),
{
    let s = text.as_str();
    let n = s.unicode_len();
    let mut k: usize = 0;
    while k < n && s.get_char(k) != ':'
        invariant
            s@ == text@,
            n == text@.len(),
            k <= n,
            forall|j: int| 0 <= j < k ==> text@[j] != ':',
        decreases n - k,
    {
        k += 1;
    }
    if k == n {
        proof {
            if exists|k2: int| is_first_colon(text@, k2) {
                let k2 = choose|k2: int| is_first_colon(text@, k2);
                assert(text@[k2] == ':');
            }
        }
        return Err(String::from_str("Password missing"));
    }
    proof {
        assert(is_first_colon(text@, k as int));
        let k2 = choose|k2: int| is_first_colon(text@, k2);
        if k2 < k {
            assert(text@[k2] == ':');
        }
        if k < k2 {
            assert(text@[k as int] == ':');
        }
        assert(k2 == k);
    }
    let username = String::from_str(s.substring_char(0, k));
    let password = String::from_str(s.substring_char(k + 1, n));
    Ok(Credentials { username, password })
}

/// Reads decoded header bytes as UTF-8 text and splits it.
pub fn credentials_from_decoded(bytes: Vec<u8>) -> (r: Result<Credentials, String>)
    ensures
        !valid_utf8(bytes@) ==> (r matches Err(m) && m@ == "Stringifying decoded authorization header"@),
        valid_utf8(bytes@) ==> match split_credentials(decode_utf8(bytes@)) {
            Some((u, p)) => r matches Ok(c) && c.username@ == u && c.password@ == p,
            None => r is Err,
        },
{
    match utf8_string(bytes) {
        None => Err(String::from_str("Stringifying decoded authorization header")),
        Some(text) => credentials_from_text(&text),
    }
}

/// Reads the credentials of a Basic `Authorization` header value.
pub fn basic_authentication(header: Option<&String>) -> (r: Result<Credentials, String>)
    ensures
        header is None ==> (r matches Err(m) && m@ == "Authorization header not found"@),
        header matches Some(h) ==> match credentials_of_header(h@) {
            Some((u, p)) => r matches Ok(c) && c.username@ == u && c.password@ == p,
            None => r is Err,
        },
{
    let h = match header {
        None => {
            return Err(String::from_str("Authorization header not found"));
        },
        Some(h) => h,
    };
    let s = h.as_str();
    let n = s.unicode_len();
    if n < 6 || String::from_str(s.substring_char(0, 6)) != String::from_str("Basic ") {
        return Err(String::from_str("Authorization scheme not Basic"));
    }
    let encoded = s.substring_char(6, n);
    match decode_base64(encoded) {
        None => Err(String::from_str("Decoding authorization header")),
        Some(bytes) => credentials_from_decoded(bytes),
    }
}

/// The outcome of a credential check, given the account found under the
/// username (its id) and whether its hash accepted the password.
pub fn credentials_outcome(user: Option<u64>, accepted: bool) -> (r: Result<u64, AuthError>)
    ensures
        r == (match user {
            Some(id) => if accepted {
                Ok::<u64, AuthError>(id)
            } else {
                Err(AuthError::InvalidCredentials)
            },
            None => Err(AuthError::InvalidCredentials),
        }),
{
    match user {
        Some(id) => if accepted {
            Ok(id)
        } else {
            Err(AuthError::InvalidCredentials)
        },
        None => Err(AuthError::InvalidCredentials),
    }
}

/// Checks credentials against the stored hash of the named operator. An
/// unknown username is checked against `DUMMY_HASH`, at the same cost, and
/// fails with the same error as a wrong password.
pub fn validate_credentials(store: &SubscriberStore, credentials: &Credentials) -> (r: Result<u64, AuthError>)
    requires
        store.wf(),
    ensures
        r == (match credentials_check(store@, credentials.username@, credentials.password@) {
            Some(id) => Ok::<u64, AuthError>(id),
            None => Err(AuthError::InvalidCredentials),
        }),
{
    let user = store.find_user(&credentials.username);
    match user {
        Some((id, hash)) => {
            let accepted = verify_password_hash(hash.as_str(), credentials.password.as_str());
            credentials_outcome(Some(id), accepted)
        },
        None => {
            let _ = verify_password_hash(DUMMY_HASH, credentials.password.as_str());
            credentials_outcome(None, false)
        },
    }
}

/// Authenticates a request by its `Authorization` header value.
pub fn validate_request(store: &SubscriberStore, authorization: Option<&String>) -> (r: Result<u64, AuthError>)
    requires
        store.wf(),
    ensures
        r == (match request_operator(store@, authorization) {
            Some(id) => Ok::<u64, AuthError>(id),
            None => Err(AuthError::InvalidCredentials),
        }),
{
    match basic_authentication(authorization) {
        Err(_) => Err(AuthError::InvalidCredentials),
        Ok(credentials) => validate_credentials(store, &credentials),
    }
}

} // verus!
