//! The public key that checks users' access tokens, given to the service as
//! base64 text of a PEM file.
use vstd::prelude::*;

use crate::errors::StartError;

verus! {

#[verifier::external_type_specification]
#[verifier::external_body]
pub struct ExDecodingKey(jsonwebtoken::DecodingKey);

/// What `data_encoding::BASE64.decode` gives for the bytes of `s`: the decoded
/// bytes, or the `Display` text of the `DecodeError`.
pub uninterp spec fn base64_decode(s: Seq<char>) -> Result<Seq<u8>, Seq<char>>;

/// `data_encoding::BASE64.decode` (padded standard base64) on the bytes of `s`:
/// its result is named by `base64_decode`.
#[verifier::external_body]
fn decode_base64(s: &str) -> (res: Result<Vec<u8>, String>)
    ensures
        match res {
            Ok(v) => base64_decode(s@) == Ok::<Seq<u8>, Seq<char>>(v@),
            Err(m) => base64_decode(s@) == Err::<Seq<u8>, Seq<char>>(m@),
        },
{
    match data_encoding::BASE64.decode(s.as_bytes()) {
        Ok(v) => Ok(v),
        Err(e) => Err(e.to_string()),
    }
}

/// What `jsonwebtoken::DecodingKey::from_rsa_pem` gives for `pem`: none where it
/// accepts the key, else the `Display` text of its error.
pub uninterp spec fn rsa_pem_error(pem: Seq<u8>) -> Option<Seq<char>>;

/// The key that `jsonwebtoken::DecodingKey::from_rsa_pem` builds from `pem` where
/// it accepts it: a function of the PEM bytes alone.
pub uninterp spec fn decoding_key_of(pem: Seq<u8>) -> jsonwebtoken::DecodingKey;

/// `jsonwebtoken::DecodingKey::from_rsa_pem`, its error read through `to_string`:
/// whether it succeeds, and the message when it does not, are named by
/// `rsa_pem_error`, and the key it builds by `decoding_key_of`.
#[verifier::external_body]
fn rsa_decoding_key(pem: &[u8]) -> (res: Result<jsonwebtoken::DecodingKey, String>)
    ensures
        match res {
            Ok(k) => rsa_pem_error(pem@) is None && k == decoding_key_of(pem@),
            Err(m) => rsa_pem_error(pem@) == Some(m@),
        },
{
    match jsonwebtoken::DecodingKey::from_rsa_pem(pem) {
        Ok(key) => Ok(key),
        Err(e) => Err(e.to_string()),
    }
}

/// Storage for keys
pub struct JwtKeys {
    /// Decode key
    pub decoding: jsonwebtoken::DecodingKey,
}

impl JwtKeys {
    /// Load from pem encoded rsa keys: the key read from `public`; a PEM that is not an RSA public key is
    /// refused as `InvalidKey` with the key reader's message.
    pub fn try_from_pem(public: &[u8]) -> (res: Result<JwtKeys, StartError>)
        ensures
            match rsa_pem_error(public@) {
                None => res matches Ok(k) && k.decoding == decoding_key_of(public@),
                Some(m) => res matches Err(StartError::InvalidKey(e)) && e@ == m,
            },
    {
        match rsa_decoding_key(public) {
            Ok(decoding) => Ok(JwtKeys { decoding }),
            Err(m) => Err(StartError::InvalidKey(m)),
        }
    }
}

/// The keys from the base64 text of a PEM encoded RSA public key: text that is
/// not base64 is refused as `DecodeKey` with the decoder's message, a PEM that
/// is not an RSA public key as `InvalidKey`.
pub fn load_public_key(rsa_pub_key_base64: &str) -> (res: Result<JwtKeys, StartError>)
    ensures
        match base64_decode(rsa_pub_key_base64@) {
            Err(m) => res matches Err(StartError::DecodeKey(e)) && e@ == m,
            Ok(pem) => match rsa_pem_error(pem) {
                None => res matches Ok(k) && k.decoding == decoding_key_of(pem),
                Some(m) => res matches Err(StartError::InvalidKey(e)) && e@ == m,
            },
        },
{
    let pem = key_material(decode_base64(rsa_pub_key_base64))?;
    JwtKeys::try_from_pem(pem.as_slice())
}

/// The PEM bytes from the result of decoding the key's base64 text; a decoding
/// error is refused as `DecodeKey` with the decoder's message.
pub fn key_material(decoded: Result<Vec<u8>, String>) -> (res: Result<Vec<u8>, StartError>)
    ensures
        match decoded {
            Ok(pem) => res matches Ok(p) && p@ == pem@,
            Err(m) => res matches Err(StartError::DecodeKey(e)) && e@ == m@,
        },
{
    match decoded {
        Ok(pem) => Ok(pem),
        Err(m) => Err(StartError::DecodeKey(m)),
    }
}

} // verus!
