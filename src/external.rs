//! Outside types that the library carries, and the calls into `jwt_simple`.
use vstd::prelude::*;
use jwt_simple::algorithms::RSAPublicKeyLike;

verus! {

#[verifier::external_type_specification]
#[verifier::external_body]
pub struct ExRS256PublicKey(jwt_simple::algorithms::RS256PublicKey);

#[verifier::external_type_specification]
#[verifier::external_body]
pub struct ExJwtError(jwt_simple::Error);

#[verifier::external_type_specification]
#[verifier::external_body]
pub struct ExReqwestError(reqwest::Error);

#[verifier::external_type_specification]
#[verifier::external_body]
#[verifier::reject_recursive_types(CustomClaims)]
pub struct ExJWTClaims<CustomClaims>(jwt_simple::claims::JWTClaims<CustomClaims>);

} // verus!

verus! {

/// Whether `RS256PublicKey::from_components` accepts this big-endian modulus
/// and exponent. The answer depends on the bytes alone.
pub uninterp spec fn rsa_components_accepted(modulus: Seq<u8>, exponent: Seq<u8>) -> bool;

/// Relies on `RS256PublicKey::from_components` (jwt_simple): builds an RSA
/// public key from its modulus and exponent, or fails on malformed material.
#[verifier::external_body]
pub(crate) fn rsa_key_from_components(modulus: &Vec<u8>, exponent: &Vec<u8>) -> (r: Result<
    jwt_simple::algorithms::RS256PublicKey,
    jwt_simple::Error,
>)
    ensures
        r.is_ok() == rsa_components_accepted(modulus@, exponent@),
{
    jwt_simple::algorithms::RS256PublicKey::from_components(modulus, exponent)
}

} // verus!

verus! {

/// What the header of `token` says of its key identifier: `None` where the
/// header cannot be decoded, `Some(None)` where it names no `kid`. The
/// answer depends on the token's text alone.
pub uninterp spec fn header_key_id(token: Seq<char>) -> Option<Option<Seq<char>>>;

/// Relies on `Token::decode_metadata` (jwt_simple), which decodes a token's
/// header without checking its signature, and on `TokenMetadata::key_id`,
/// which reads the `kid` from it.
#[verifier::external_body]
pub(crate) fn decode_key_id(token: &str) -> (r: Result<Option<String>, jwt_simple::Error>)
    ensures
        match r {
            Ok(Some(k)) => header_key_id(token@) == Some(Some(k@)),
            Ok(None) => header_key_id(token@) == Some(None::<Seq<char>>),
            Err(_) => header_key_id(token@) is None,
        },
{
    jwt_simple::token::Token::decode_metadata(token).map(|m| m.key_id().map(|k| k.to_string()))
}

/// Relies on `RSAPublicKeyLike::verify_token` (jwt_simple): checks the RS256
/// signature of `token` against `key`, its time claims against the clock,
/// and that its issuer and audience are the given ones. The outcome depends
/// on the clock, so nothing is stated of it.
#[verifier::external_body]
pub(crate) fn verify_rs256<T: serde::de::DeserializeOwned>(
    key: &jwt_simple::algorithms::RS256PublicKey,
    token: &str,
    issuer: &String,
    audience: &String,
) -> (r: Result<jwt_simple::claims::JWTClaims<T>, jwt_simple::Error>) {
    let options = jwt_simple::common::VerificationOptions {
        allowed_issuers: Some(std::collections::HashSet::from([issuer.clone()])),
        allowed_audiences: Some(std::collections::HashSet::from([audience.clone()])),
        ..Default::default()
    };
    key.verify_token::<T>(token, Some(options))
}

} // verus!
