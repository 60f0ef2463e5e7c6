//! Session tokens: a JSON Web Token signed with HMAC-SHA256 whose only
//! registered claim is the subject (a call's uuid).
use hmac::{Hmac, Mac};
use jwt::{RegisteredClaims, SignWithKey, VerifyWithKey};
use sha2::Sha256;
use vstd::prelude::*;

verus! {

/// The compact token (`header.claims.signature`, base64url) that the `jwt`
/// crate signs with the HMAC-SHA256 key `secret` for registered claims whose
/// only field is the subject `subject`.
pub uninterp spec fn hs256_token(secret: Seq<char>, subject: Seq<char>) -> Seq<char>;

/// What the `jwt` crate reads back from `token` with the HMAC-SHA256 key
/// `secret`: `None` when the token does not parse, is not HS256 or its
/// signature does not match; otherwise the registered `sub` claim, if any.
pub uninterp spec fn hs256_subject(secret: Seq<char>, token: Seq<char>) -> Option<Option<Seq<char>>>;

/// Builds the key with `Hmac::<Sha256>::new_from_slice` and signs
/// `RegisteredClaims { subject: Some(subject), .. }` with
/// `SignWithKey::sign_with_key`.
/// Trusted: the contract claims that this succeeds (the HMAC key accepts a
/// key of any length, and serialising these claims and signing cannot fail
/// in the crates' source) and names the token `hs256_token(secret, subject)`.
#[verifier::external_body]
fn hs256_sign(secret: &str, subject: &str) -> (r: Result<String, &'static str>)
    ensures
        r is Ok,
        r matches Ok(t) ==> t@ == hs256_token(secret@, subject@),
{
    let claims = RegisteredClaims { subject: Some(subject.to_string()), ..Default::default() };
    let key: Hmac<Sha256> = Hmac::new_from_slice(secret.as_bytes()).map_err(|_e| "Invalid key")?;
    claims.sign_with_key(&key).map_err(|_e| "Sign failed")
}

/// Builds the key with `Hmac::<Sha256>::new_from_slice` and reads the
/// registered claims of `token` with `VerifyWithKey::verify_with_key`,
/// returning their subject; `None` when either call fails.
/// Trusted: the contract names the outcome `hs256_subject(secret, token)`,
/// and claims that a token signed by `hs256_sign` with the same key reads
/// back with the subject it was signed for (the header and claims are
/// base64url JSON that `serde_json` gives back unchanged, and the HMAC over
/// them matches).
#[verifier::external_body]
fn hs256_verify(secret: &str, token: &str) -> (r: Option<Option<String>>)
    ensures
        r.deep_view() == hs256_subject(secret@, token@),
        forall|sub: Seq<char>|
            #[trigger] hs256_token(secret@, sub) == token@ ==> r.deep_view() == Some(Some(sub)),
{
    let key: Hmac<Sha256> = match Hmac::new_from_slice(secret.as_bytes()) {
        Ok(k) => k,
        Err(_) => return None,
    };
    match VerifyWithKey::<RegisteredClaims>::verify_with_key(token, &key) {
        Ok(claims) => Some(claims.subject),
        Err(_) => None,
    }
}

/// A new token for the call `uuid`, signed with `secret_key`.
pub fn new_token(secret_key: String, uuid: String) -> (r: Result<String, &'static str>)
    ensures
        r is Ok,
        r matches Ok(t) ==> t@ == hs256_token(secret_key@, uuid@),
{
    hs256_sign(secret_key.as_str(), uuid.as_str())
}

/// The answer `verify` gives for what reading a token gave back: the
/// subject, or the error that names why there is none.
pub fn subject_of(read: Option<Option<String>>) -> (r: Result<String, &'static str>)
    ensures
        match read {
            None => r matches Err(e) && e@ == "Parse failed"@,
            Some(None) => r matches Err(e) && e@ == "Missing subject"@,
            Some(Some(s)) => r matches Ok(t) && t@ == s@,
        },
{
    match read {
        None => Err("Parse failed"),
        Some(None) => Err("Missing subject"),
        Some(Some(s)) => Ok(s),
    }
}

/// The subject of `token` when it is a valid token signed with
/// `secret_key`. A token that `new_token` made with the same key always
/// verifies, and gives back the uuid it was made for.
pub fn verify(secret_key: &str, token: &str) -> (r: Result<String, &'static str>)
    ensures
        match hs256_subject(secret_key@, token@) {
            None => r matches Err(e) && e@ == "Parse failed"@,
            Some(None) => r matches Err(e) && e@ == "Missing subject"@,
            Some(Some(s)) => r matches Ok(t) && t@ == s,
        },
        forall|uuid: Seq<char>|
            #[trigger] hs256_token(secret_key@, uuid) == token@ ==> (r matches Ok(t) && t@ == uuid),
{
    let read = hs256_verify(secret_key, token);
    subject_of(read)
}

} // verus!
