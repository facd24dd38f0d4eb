use vstd::prelude::*;
use crate::bytes::views_of;
use crate::errors::VerifyError;
use rustls_pki_types::{CertificateDer, UnixTime};

verus! {

/// Metadata recorded during the session that identifies the remote server:
/// the domain name the prover asserts, and the X.509 certificate chain the
/// server presented in the TLS handshake (leaf first, in DER encoding).
pub struct SessionInfo {
    /// The server name asserted by the prover.
    pub server_name: String,
    /// The server's end-entity certificate, DER-encoded.
    pub end_entity_cert: Vec<u8>,
    /// The intermediate certificates of the chain, DER-encoded.
    pub intermediate_certs: Vec<Vec<u8>>,
}

/// Whether the DER certificate `end_entity`, via `intermediates`, forms a
/// chain to one of the trust anchors `roots` that is valid for TLS server
/// use at Unix time `time`. A function of the encoded certificates and the
/// time alone.
pub uninterp spec fn chain_valid_at(
    roots: Seq<Seq<u8>>,
    intermediates: Seq<Seq<u8>>,
    end_entity: Seq<u8>,
    time: u64,
) -> bool;

/// Whether the DER certificate `end_entity` is valid for the server name
/// `name` under the standard hostname matching rules, wildcards included.
pub uninterp spec fn cert_matches_name(end_entity: Seq<u8>, name: Seq<char>) -> bool;

/// Relies on webpki::EndEntityCert::verify_for_usage (rustls-webpki): path
/// building from the end-entity certificate through the intermediates to
/// one of the given anchors, checked for TLS server usage at the given
/// time; the outcome depends on the DER bytes and the time alone. Inputs
/// that do not parse as certificates validate nothing.
#[verifier::external_body]
fn webpki_chain_valid(roots: &Vec<Vec<u8>>, intermediates: &Vec<Vec<u8>>, end_entity: &Vec<u8>, time: u64) -> (r: bool)
    ensures
        r == chain_valid_at(views_of(roots@), views_of(intermediates@), end_entity@, time),
{
    let mut anchors = Vec::new();
    for root in roots.iter() {
        let der = CertificateDer::from(root.as_slice());
        match webpki::anchor_from_trusted_cert(&der) { Ok(a) => anchors.push(a.to_owned()), Err(_) => return false }
    }
    let inters: Vec<CertificateDer> = intermediates.iter().map(|c| CertificateDer::from(c.as_slice())).collect();
    let ee = CertificateDer::from(end_entity.as_slice());
    let cert = match webpki::EndEntityCert::try_from(&ee) { Ok(c) => c, Err(_) => return false };
    let at = UnixTime::since_unix_epoch(core::time::Duration::from_secs(time));
    cert.verify_for_usage(webpki::ALL_VERIFICATION_ALGS, &anchors, &inters, at, webpki::KeyUsage::server_auth(), None, None).is_ok()
}

/// Relies on webpki::EndEntityCert::verify_is_valid_for_subject_name
/// (rustls-webpki): standard hostname matching of a server name against
/// the certificate's subject alternative names, wildcards included; the
/// outcome depends on the DER bytes and the name alone.
#[verifier::external_body]
fn webpki_name_valid(end_entity: &Vec<u8>, name: &String) -> (r: bool)
    ensures
        r == cert_matches_name(end_entity@, name@),
{
    let ee = CertificateDer::from(end_entity.as_slice());
    let cert = match webpki::EndEntityCert::try_from(&ee) {
        Ok(c) => c,
        Err(_) => return false,
    };
    let server_name = match rustls_pki_types::ServerName::try_from(name.as_str()) {
        Ok(n) => n,
        Err(_) => return false,
    };
    cert.verify_is_valid_for_subject_name(&server_name).is_ok()
}

/// Which identity failure, if any, the session metadata has against the
/// given trust anchors at the given time: an invalid chain outranks a
/// hostname mismatch.
pub open spec fn spec_identity_error(info: SessionInfo, roots: Seq<Seq<u8>>, time: u64) -> Option<VerifyError> {
    if !chain_valid_at(roots, views_of(info.intermediate_certs@), info.end_entity_cert@, time) {
        Some(VerifyError::InvalidCertificateChain)
    } else if !cert_matches_name(info.end_entity_cert@, info.server_name@) {
        Some(VerifyError::HostnameMismatch)
    } else {
        None
    }
}

/// Validate the attested server identity: the certificate chain must reach
/// one of the trust anchors at the attested time, and the leaf certificate
/// must be valid for the asserted server name. Validity is judged at the
/// attested `time`, not at the wall clock, so a proof stays verifiable
/// after the certificates expire.
pub fn verify_identity(info: &SessionInfo, roots: &Vec<Vec<u8>>, time: u64) -> (r: Result<(), VerifyError>)
    ensures
        r is Ok <==> spec_identity_error(*info, views_of(roots@), time) is None,
        r matches Err(e) ==> Some(e) == spec_identity_error(*info, views_of(roots@), time),
{
    if !webpki_chain_valid(roots, &info.intermediate_certs, &info.end_entity_cert, time) {
        return Err(VerifyError::InvalidCertificateChain);
    }
    if !webpki_name_valid(&info.end_entity_cert, &info.server_name) {
        return Err(VerifyError::HostnameMismatch);
    }
    Ok(())
}

} // verus!
