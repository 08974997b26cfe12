use vstd::prelude::*;

verus! {

/// Why a validation, or a refresh of the key set, failed.
#[derive(Debug)]
pub enum JwkClientErr {
    /// The key-set document could not be fetched or decoded.
    ConnectionError(reqwest::Error),
    /// A key of the key-set document holds material that is no RSA public key.
    MalformedKey(jwt_simple::Error),
    /// The token's header names no key identifier (`kid`).
    MissingKeyId,
    /// No key with the token's identifier is cached, or it is not active yet.
    UnknownOrInactiveKey,
    /// The token could not be decoded, or its signature, issuer, audience or
    /// validity period was rejected.
    ParseError(jwt_simple::Error),
}

} // verus!
