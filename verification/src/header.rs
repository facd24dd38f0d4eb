use vstd::prelude::*;
use crate::bytes::{le64, lemma_le64_injective, push_bytes, push_le64};

verus! {

/// The notary's attestation of one session: a 32-byte commitment to the
/// whole bidirectional transcript, a nonce binding that commitment, the
/// Unix timestamp at which the session was attested, and the committed
/// total length of each transcript direction. The notary signs the
/// canonical encoding of this record, so every field here is authentic
/// once the signature has been checked; in particular the two lengths are
/// bound by the signature and cannot be under-reported by the prover.
pub struct SessionHeader {
    /// Commitment to the ordered list of per-range commitments.
    pub merkle_root: Vec<u8>,
    /// Random value binding the commitment.
    pub nonce: Vec<u8>,
    /// Unix timestamp (seconds) of the attestation.
    pub time: u64,
    /// Committed total length of the sent transcript.
    pub sent_len: u64,
    /// Committed total length of the received transcript.
    pub recv_len: u64,
}

impl SessionHeader {
    /// A header is well shaped when its commitment and nonce have the fixed
    /// 32-byte width; only such headers have an unambiguous encoding.
    pub open spec fn wf(&self) -> bool {
        self.merkle_root@.len() == 32 && self.nonce@.len() == 32
    }

    /// The canonical encoding that the notary signs:
    /// root, nonce, then time, sent length and received length little-endian.
    pub open spec fn spec_bytes(&self) -> Seq<u8> {
        self.merkle_root@ + self.nonce@ + le64(self.time) + le64(self.sent_len)
            + le64(self.recv_len)
    }
}

/// The canonical serialization of a session header.
pub fn header_bytes(h: &SessionHeader) -> (r: Vec<u8>)
    ensures
        r@ == h.spec_bytes(),
{
    let mut r: Vec<u8> = Vec::new();
    push_bytes(&mut r, &h.merkle_root);
    push_bytes(&mut r, &h.nonce);
    push_le64(&mut r, h.time);
    push_le64(&mut r, h.sent_len);
    push_le64(&mut r, h.recv_len);
    proof {
        assert(r@ =~= h.spec_bytes());
    }
    r
}

/// The canonical encoding of a well-shaped header pins every field: two
/// headers with the same signed bytes agree on the commitment, the nonce,
/// the timestamp and both lengths. So a notary signature over the encoding
/// attests exactly one header, and changing any field changes the message
/// that the signature is checked against.
pub proof fn lemma_header_bytes_injective(a: SessionHeader, b: SessionHeader)
    requires
        a.wf(),
        b.wf(),
        a.spec_bytes() == b.spec_bytes(),
    ensures
        a.merkle_root@ == b.merkle_root@,
        a.nonce@ == b.nonce@,
        a.time == b.time,
        a.sent_len == b.sent_len,
        a.recv_len == b.recv_len,
{
    let sa = a.spec_bytes();
    let sb = b.spec_bytes();
    assert(sa.len() == 88);
    assert(a.merkle_root@ =~= sa.subrange(0, 32));
    assert(b.merkle_root@ =~= sb.subrange(0, 32));
    assert(a.nonce@ =~= sa.subrange(32, 64));
    assert(b.nonce@ =~= sb.subrange(32, 64));
    assert(le64(a.time) =~= sa.subrange(64, 72));
    assert(le64(b.time) =~= sb.subrange(64, 72));
    assert(le64(a.sent_len) =~= sa.subrange(72, 80));
    assert(le64(b.sent_len) =~= sb.subrange(72, 80));
    assert(le64(a.recv_len) =~= sa.subrange(80, 88));
    assert(le64(b.recv_len) =~= sb.subrange(80, 88));
    lemma_le64_injective(a.time, b.time);
    lemma_le64_injective(a.sent_len, b.sent_len);
    lemma_le64_injective(a.recv_len, b.recv_len);
}

} // verus!
