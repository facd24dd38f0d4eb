use vstd::prelude::*;
use crate::bytes::views_of;
use crate::errors::VerifyError;
use crate::header::{header_bytes, SessionHeader};
use crate::identity::{spec_identity_error, verify_identity, SessionInfo};
use crate::notary::{ecdsa_p256_verify, p256_sig_valid, NotaryKey};
use crate::substrings::{spec_substrings_error, Direction, SubstringsProof};
use crate::transcript::{filled_from, lemma_redacted_unique, redacted_ok, RedactedTranscript};

verus! {

/// The notary's attestation of one session: the signed header, the
/// detached signature over the header's canonical encoding, and the
/// session metadata that identifies the server. No field beyond the
/// header's bytes is trusted before the signature has been checked.
pub struct SessionProof {
    /// The signed commitment to the transcript.
    pub header: SessionHeader,
    /// The notary's signature over the header's canonical encoding.
    pub signature: Vec<u8>,
    /// The server identity recorded during the session.
    pub session_info: SessionInfo,
}

/// A complete proof artifact as received from an untrusted prover: the
/// notary's session attestation plus the disclosed substrings. Consumed
/// once by verification.
pub struct TlsProof {
    /// The attested session.
    pub session: SessionProof,
    /// The selectively disclosed transcript substrings.
    pub substrings: SubstringsProof,
}

/// What a successful verification attests: the verified server name, the
/// attested Unix timestamp, and the two transcript directions with every
/// undisclosed byte replaced by the sentinel.
pub struct VerifiedSession {
    /// The server name, confirmed against the certificate chain.
    pub server_name: String,
    /// When the notary attested the session, in Unix seconds.
    pub time: u64,
    /// The reconstructed sent transcript.
    pub sent: RedactedTranscript,
    /// The reconstructed received transcript.
    pub recv: RedactedTranscript,
}

/// Which failure, if any, the session attestation has: a malformed header
/// is reported before any cryptographic step, then the notary signature
/// is judged, then the server identity.
pub open spec fn spec_session_error(p: SessionProof, key: NotaryKey, roots: Seq<Seq<u8>>) -> Option<
    VerifyError,
> {
    if !p.header.wf() {
        Some(VerifyError::MalformedProof)
    } else if !p256_sig_valid(key.bytes@, p.header.spec_bytes(), p.signature@) {
        Some(VerifyError::InvalidSignature)
    } else {
        spec_identity_error(p.session_info, roots, p.header.time)
    }
}

impl SessionProof {
    /// Validate the attestation: the header must be well shaped, the
    /// notary's signature must verify over its canonical encoding, and
    /// the server identity must check out against the trust anchors at
    /// the attested time. Succeeds exactly when none of these fails, and
    /// reports the first failure otherwise.
    pub fn verify(&self, key: &NotaryKey, roots: &Vec<Vec<u8>>) -> (r: Result<(), VerifyError>)
        ensures
            r is Ok <==> spec_session_error(*self, *key, views_of(roots@)) is None,
            r matches Err(e) ==> Some(e) == spec_session_error(*self, *key, views_of(roots@)),
    {
        if self.header.merkle_root.len() != 32 || self.header.nonce.len() != 32 {
            return Err(VerifyError::MalformedProof);
        }
        let msg = header_bytes(&self.header);
        if !ecdsa_p256_verify(key, &msg, &self.signature) {
            return Err(VerifyError::InvalidSignature);
        }
        verify_identity(&self.session_info, roots, self.header.time)
    }
}

/// Which failure, if any, verification of the whole artifact reports: the
/// session attestation is judged first, then the disclosed substrings
/// against the attested header. The first failure is final; nothing is
/// retried, since every input is deterministic.
pub open spec fn spec_verify_error(p: TlsProof, key: NotaryKey, roots: Seq<Seq<u8>>) -> Option<
    VerifyError,
> {
    if spec_session_error(p.session, key, roots) is Some {
        spec_session_error(p.session, key, roots)
    } else {
        spec_substrings_error(p.substrings, p.session.header)
    }
}

/// A successful verification's output for the artifact `p` and sentinel:
/// the server name and timestamp are the attested ones, and each
/// transcript direction holds the disclosed bytes at their committed
/// positions and the sentinel everywhere else.
pub open spec fn verified_session_ok(s: VerifiedSession, p: TlsProof, sentinel: u8) -> bool {
    &&& s.server_name@ == p.session.session_info.server_name@
    &&& s.time == p.session.header.time
    &&& redacted_ok(
        s.sent,
        p.substrings.openings@,
        Direction::Sent,
        p.session.header.sent_len,
        sentinel,
    )
    &&& redacted_ok(
        s.recv,
        p.substrings.openings@,
        Direction::Received,
        p.session.header.recv_len,
        sentinel,
    )
}

/// Everything verification of `p` promises about its result `r`.
pub open spec fn spec_verify_post(
    p: TlsProof,
    key: NotaryKey,
    roots: Seq<Seq<u8>>,
    sentinel: u8,
    r: Result<VerifiedSession, VerifyError>,
) -> bool {
    &&& r is Err <==> spec_verify_error(p, key, roots) is Some
    &&& (r matches Err(e) ==> Some(e) == spec_verify_error(p, key, roots))
    &&& (r matches Ok(s) ==> verified_session_ok(s, p, sentinel))
}

/// Verify a proof artifact end to end: the notary signature over the
/// session header, the server identity against the trust anchors at the
/// attested time, and the disclosed substrings against the attested
/// commitment; then reconstruct both transcript directions with every
/// undisclosed byte replaced by `sentinel`. The steps run in that fixed
/// order and the first failure aborts the pipeline with that step's
/// error.
pub fn verify_tls_proof(
    proof: &TlsProof,
    key: &NotaryKey,
    roots: &Vec<Vec<u8>>,
    sentinel: u8,
) -> (r: Result<VerifiedSession, VerifyError>)
    requires
        proof.session.header.sent_len <= usize::MAX,
        proof.session.header.recv_len <= usize::MAX,
    ensures
        spec_verify_post(*proof, *key, views_of(roots@), sentinel, r),
{
    match proof.session.verify(key, roots) {
        Ok(u) => u,
        Err(e) => {
            return Err(e);
        },
    };
    let (mut sent, mut recv) = match proof.substrings.verify(&proof.session.header) {
        Ok(t) => t,
        Err(e) => {
            return Err(e);
        },
    };
    let ghost pre_sent = sent;
    let ghost pre_recv = recv;
    sent.set_redacted(sentinel);
    recv.set_redacted(sentinel);
    proof {
        let s = proof.substrings.openings@;
        let h = proof.session.header;
        assert forall|k: int| 0 <= k < s.len() implies (#[trigger] s[k]).start + s[k].data@.len()
            <= crate::substrings::spec_dir_len(h, s[k].direction) by {
            assert(crate::substrings::opening_in_bounds(s[k], h));
        }
        lemma_redact_filled(
            pre_sent,
            sent,
            proof.substrings.openings@,
            Direction::Sent,
            proof.session.header.sent_len,
            sentinel,
        );
        lemma_redact_filled(
            pre_recv,
            recv,
            proof.substrings.openings@,
            Direction::Received,
            proof.session.header.recv_len,
            sentinel,
        );
    }
    let server_name = proof.session.session_info.server_name.clone();
    Ok(VerifiedSession { server_name, time: proof.session.header.time, sent, recv })
}

/// Replacing every undisclosed byte of a freshly reconstructed transcript
/// with the sentinel yields exactly the final output form.
proof fn lemma_redact_filled(
    pre: RedactedTranscript,
    post: RedactedTranscript,
    s: Seq<crate::substrings::SubstringsOpening>,
    d: Direction,
    total: u64,
    sentinel: u8,
)
    requires
        filled_from(pre, s, d, total),
        forall|k: int|
            0 <= k < s.len() && (#[trigger] s[k]).direction == d ==> s[k].start + s[k].data@.len()
                <= total,
        post.disclosed@ == pre.disclosed@,
        post.data@.len() == pre.data@.len(),
        forall|i: int|
            0 <= i < pre.data@.len() ==> post.data@[i] == (if pre.disclosed@[i] {
                pre.data@[i]
            } else {
                sentinel
            }),
    ensures
        redacted_ok(post, s, d, total, sentinel),
{
    assert forall|k: int, off: int|
        0 <= k < s.len() && s[k].direction == d && 0 <= off < s[k].data@.len() implies post.data@[
        s[k].start + off] == #[trigger] s[k].data@[off] && post.disclosed@[s[k].start + off] by {
        let pos = s[k].start + off;
        assert(pre.data@[pos] == s[k].data@[off]);
        assert(pre.disclosed@[pos]);
        assert(post.data@[pos] == pre.data@[pos]);
    }
    assert forall|i: int|
        0 <= i < total && !(#[trigger] crate::transcript::covered(s, d, i)) implies !post.disclosed@[i]
        && post.data@[i] == sentinel by {
        assert(!pre.disclosed@[i]);
        assert(post.data@[i] == sentinel);
    }
}

/// Verification is idempotent: any two outcomes that the verifier may
/// report for the same artifact, notary key, trust anchors and sentinel
/// are identical, in the error reported or in the server name, timestamp
/// and both reconstructed transcripts.
pub proof fn lemma_verify_deterministic(
    p: TlsProof,
    key: NotaryKey,
    roots: Seq<Seq<u8>>,
    sentinel: u8,
    r1: Result<VerifiedSession, VerifyError>,
    r2: Result<VerifiedSession, VerifyError>,
)
    requires
        spec_verify_post(p, key, roots, sentinel, r1),
        spec_verify_post(p, key, roots, sentinel, r2),
    ensures
        r1 is Ok <==> r2 is Ok,
        r1 matches Err(e1) ==> (r2 matches Err(e2) ==> e1 == e2),
        r1 matches Ok(a) ==> (r2 matches Ok(b) ==> a.server_name@ == b.server_name@ && a.time
            == b.time && a.sent.data@ == b.sent.data@ && a.sent.disclosed@ == b.sent.disclosed@
            && a.recv.data@ == b.recv.data@ && a.recv.disclosed@ == b.recv.disclosed@),
{
    if r1 is Ok && r2 is Ok {
        let a = r1->Ok_0;
        let b = r2->Ok_0;
        lemma_redacted_unique(
            a.sent,
            b.sent,
            p.substrings.openings@,
            Direction::Sent,
            p.session.header.sent_len,
            sentinel,
        );
        lemma_redacted_unique(
            a.recv,
            b.recv,
            p.substrings.openings@,
            Direction::Received,
            p.session.header.recv_len,
            sentinel,
        );
    }
}

} // verus!
