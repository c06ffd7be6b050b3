use vstd::prelude::*;

use crate::identity::{bearer_token, bearer_token_of, is_unauthorized};
use crate::problem_details::ProblemDetails;

verus! {

#[verifier::external_type_specification]
#[verifier::external_body]
pub struct ExDecodingKey(jsonwebtoken::DecodingKey);

/// The `kid` in the header of a token, if the header decodes and has one.
pub uninterp spec fn token_kid_of(token: Seq<char>) -> Option<Seq<char>>;

/// The RSA modulus and exponent of the key with the given `kid` in a key-set
/// document, if the document is a key set and that key is an RSA key.
pub uninterp spec fn rsa_components_of(document: Seq<char>, kid: Seq<char>) -> Option<(Seq<char>, Seq<char>)>;

/// Whether an RSA modulus and exponent decode into a verification key.
pub uninterp spec fn rsa_key_decodes(modulus: Seq<char>, exponent: Seq<char>) -> bool;

/// Relies on `jsonwebtoken::decode_header`: the `kid` field of the decoded header;
/// it depends on the token alone.
#[verifier::external_body]
fn token_kid(token: &str) -> (r: Option<String>)
    ensures
        match r {
            Some(kid) => token_kid_of(token@) == Some(kid@),
            None => token_kid_of(token@) is None,
        },
{
    jsonwebtoken::decode_header(token).ok().and_then(|h| h.kid)
}

/// Relies on `serde_json::from_str` into `jsonwebtoken::jwk::JwkSet` and on
/// `JwkSet::find`: the `n` and `e` of the RSA key with the given `kid`; it depends
/// on the document and the kid alone.
#[verifier::external_body]
fn rsa_components(document: &str, kid: &str) -> (r: Option<(String, String)>)
    ensures
        match r {
            Some((n, e)) => rsa_components_of(document@, kid@) == Some((n@, e@)),
            None => rsa_components_of(document@, kid@) is None,
        },
{
    let set = serde_json::from_str::<jsonwebtoken::jwk::JwkSet>(document).ok()?;
    match &set.find(kid)?.algorithm {
        jsonwebtoken::jwk::AlgorithmParameters::RSA(rsa) => Some((rsa.n.clone(), rsa.e.clone())),
        _ => None,
    }
}

/// Relies on `jsonwebtoken::DecodingKey::from_rsa_components`, which fails when a
/// component is not base64url text; whether it succeeds depends on the two texts
/// alone.
#[verifier::external_body]
fn rsa_decoding_key(modulus: &str, exponent: &str) -> (r: Option<jsonwebtoken::DecodingKey>)
    ensures
        r is Some <==> rsa_key_decodes(modulus@, exponent@),
{
    jsonwebtoken::DecodingKey::from_rsa_components(modulus, exponent).ok()
}

/// The token of a request and the id of the key it names, from the request's
/// `Authorization` header.
pub open spec fn token_and_kid_of(header: Option<Seq<char>>) -> Option<(Seq<char>, Seq<char>)> {
    match header {
        None => None,
        Some(h) => match bearer_token_of(h) {
            None => None,
            Some(t) => match token_kid_of(t) {
                None => None,
                Some(k) => Some((t, k)),
            },
        },
    }
}

/// Reads the bearer token of a request and the key id in its header; anything
/// missing or malformed is answered with 401.
pub fn token_and_key_id(header: Option<&str>) -> (r: Result<(String, String), ProblemDetails>)
    ensures
        match token_and_kid_of(
            match header {
                Some(h) => Some(h@),
                None => None,
            },
        ) {
            Some((t, k)) => r matches Ok((token, kid)) && token@ == t && kid@ == k,
            None => r matches Err(p) && is_unauthorized(p),
        },
{
    let token = match bearer_token(header) {
        Some(t) => t,
        None => return Err(ProblemDetails::from_401()),
    };
    let kid = match token_kid(token.as_str()) {
        Some(k) => k,
        None => return Err(ProblemDetails::from_401()),
    };
    Ok((token, kid))
}

/// Whether a key-set document holds a usable RSA key under `kid`.
pub open spec fn has_verification_key(document: Seq<char>, kid: Seq<char>) -> bool {
    match rsa_components_of(document, kid) {
        Some((n, e)) => rsa_key_decodes(n, e),
        None => false,
    }
}

/// The key that verifies tokens signed under `kid`, from the key-set document;
/// no such RSA key, or one that does not decode, is answered with 401.
pub fn verification_key(document: &str, kid: &str) -> (r: Result<jsonwebtoken::DecodingKey, ProblemDetails>)
    ensures
        r is Ok <==> has_verification_key(document@, kid@),
        r matches Err(p) ==> is_unauthorized(p),
{
    let (n, e) = match rsa_components(document, kid) {
        Some(components) => components,
        None => return Err(ProblemDetails::from_401()),
    };
    match rsa_decoding_key(n.as_str(), e.as_str()) {
        Some(key) => Ok(key),
        None => Err(ProblemDetails::from_401()),
    }
}

} // verus!
