use vstd::prelude::*;
use crate::errors::VerifyError;
use p256::pkcs8::DecodePublicKey;

verus! {

/// Metadata that a notary server's discovery endpoint reports about itself.
/// Only `public_key` is a trust input; the other fields are informational.
#[derive(Clone, Debug)]
pub struct InfoResponse {
    /// Current version of notary-server
    pub version: String,
    /// Public key of the notary signing key
    pub public_key: String,
    /// Current git commit hash of notary-server
    pub git_commit_hash: String,
    /// Current git commit timestamp of notary-server
    pub git_commit_timestamp: String,
}

/// The notary's elliptic-curve public key, held as the uncompressed SEC1
/// encoding of the curve point.
#[derive(Clone, Debug)]
pub struct NotaryKey {
    pub bytes: Vec<u8>,
}

/// The SEC1 bytes (if any) that a PEM document decodes to. Which they are
/// depends on the text alone.
pub uninterp spec fn pem_key_bytes(pem: Seq<char>) -> Option<Seq<u8>>;

/// Relies on p256::PublicKey::from_public_key_pem and to_sec1_bytes: a PEM
/// document either decodes to exactly one P-256 public key, determined by
/// the text alone, or is rejected.
#[verifier::external_body]
fn parse_public_key_pem(pem: &String) -> (r: Option<Vec<u8>>)
    ensures
        r is Some <==> pem_key_bytes(pem@) is Some,
        r matches Some(v) ==> Some(v@) == pem_key_bytes(pem@),
{
    match p256::PublicKey::from_public_key_pem(pem.as_str()) {
        Ok(k) => Some(k.to_sec1_bytes().to_vec()),
        Err(_) => None,
    }
}

/// Decode the notary's public signing key from a PEM document, the sole
/// trust input of a verification. A text that is not a valid PEM-encoded
/// elliptic-curve public key is a fatal resolution error.
pub fn notary_key_from_pem(pem: &String) -> (r: Result<NotaryKey, VerifyError>)
    ensures
        r is Ok <==> pem_key_bytes(pem@) is Some,
        r matches Ok(k) ==> Some(k.bytes@) == pem_key_bytes(pem@),
        r matches Err(e) ==> e == VerifyError::KeyResolutionFailed,
{
    match parse_public_key_pem(pem) {
        Some(b) => Ok(NotaryKey { bytes: b }),
        None => Err(VerifyError::KeyResolutionFailed),
    }
}

/// Decode the notary's public signing key from a discovery response.
pub fn notary_key_from_info(info: &InfoResponse) -> (r: Result<NotaryKey, VerifyError>)
    ensures
        r is Ok <==> pem_key_bytes(info.public_key@) is Some,
        r matches Ok(k) ==> Some(k.bytes@) == pem_key_bytes(info.public_key@),
        r matches Err(e) ==> e == VerifyError::KeyResolutionFailed,
{
    notary_key_from_pem(&info.public_key)
}

/// Whether `sig` is a valid ECDSA P-256 signature by the key with SEC1
/// encoding `key` over `msg`. A function of the three byte strings alone.
pub uninterp spec fn p256_sig_valid(key: Seq<u8>, msg: Seq<u8>, sig: Seq<u8>) -> bool;

/// Relies on p256::ecdsa::VerifyingKey::verify, with
/// p256::PublicKey::from_sec1_bytes and p256::ecdsa::Signature::from_slice
/// converting the inputs: whether a signature verifies depends only on the
/// key bytes, the message and the signature bytes; the p256 crate performs
/// the curve arithmetic in constant time. Key or signature bytes that do
/// not decode verify nothing.
#[verifier::external_body]
pub(crate) fn ecdsa_p256_verify(key: &NotaryKey, msg: &Vec<u8>, sig: &Vec<u8>) -> (r: bool)
    ensures
        r == p256_sig_valid(key.bytes@, msg@, sig@),
{
    let pk = match p256::PublicKey::from_sec1_bytes(key.bytes.as_slice()) {
        Ok(pk) => pk,
        Err(_) => return false,
    };
    let s = match p256::ecdsa::Signature::from_slice(sig.as_slice()) {
        Ok(s) => s,
        Err(_) => return false,
    };
    let vk = p256::ecdsa::VerifyingKey::from(pk);
    p256::ecdsa::signature::Verifier::verify(&vk, msg.as_slice(), &s).is_ok()
}

} // verus!
