use vstd::prelude::*;
use crate::bytes::{bytes_eq, le64, lemma_le64_injective, push_bytes, push_le64, views_of};
use crate::errors::VerifyError;
use crate::hash::{sha256, sha256_of};
use crate::header::SessionHeader;
use crate::transcript::{filled_from, reconstruct, RedactedTranscript};

verus! {

/// Which transcript direction a disclosed range belongs to.
#[derive(Clone, Copy, Debug, PartialEq, Eq, Structural)]
pub enum Direction {
    Sent,
    Received,
}

/// The committed total transcript length that the header records for one
/// direction.
pub open spec fn spec_dir_len(h: SessionHeader, d: Direction) -> u64 {
    match d {
        Direction::Sent => h.sent_len,
        Direction::Received => h.recv_len,
    }
}

/// The committed total transcript length for one direction.
pub fn dir_len(h: &SessionHeader, d: Direction) -> (r: u64)
    ensures
        r == spec_dir_len(*h, d),
{
    match d {
        Direction::Sent => h.sent_len,
        Direction::Received => h.recv_len,
    }
}

/// One disclosed contiguous transcript span together with the data that
/// opens its commitment: the index of the committed slot it claims, the
/// direction and start offset of the span, the disclosed bytes themselves,
/// and the blinder that randomized the commitment.
pub struct SubstringsOpening {
    /// Index of the claimed slot in the committed leaf list.
    pub leaf_index: usize,
    /// Which transcript direction the span belongs to.
    pub direction: Direction,
    /// Offset of the first disclosed byte within that direction.
    pub start: u64,
    /// The disclosed bytes.
    pub data: Vec<u8>,
    /// The random value that blinded this span's commitment.
    pub blinder: Vec<u8>,
}

/// Selective disclosure of transcript substrings: the full ordered list of
/// per-range commitments made at session time (whose digest the signed
/// header's commitment must equal, which proves the list complete), and an
/// opening for each range the prover chose to disclose.
pub struct SubstringsProof {
    /// Every per-range commitment made at session time, each 32 bytes.
    pub leaves: Vec<Vec<u8>>,
    /// The openings of the ranges that are disclosed.
    pub openings: Vec<SubstringsOpening>,
}

/// The domain-separating byte of a direction in a commitment encoding.
pub open spec fn dir_byte(d: Direction) -> u8 {
    match d {
        Direction::Sent => 0,
        Direction::Received => 1,
    }
}

/// The byte string whose hash is a range's commitment: direction byte,
/// start offset, byte count, the bytes, blinder length, blinder. The
/// length fields make the encoding unambiguous.
pub open spec fn spec_opening_bytes(o: SubstringsOpening) -> Seq<u8> {
    seq![dir_byte(o.direction)] + le64(o.start) + le64(o.data@.len() as u64) + o.data@
        + le64(o.blinder@.len() as u64) + o.blinder@
}

/// The commitment encoding of one opening.
pub fn opening_bytes(o: &SubstringsOpening) -> (r: Vec<u8>)
    ensures
        r@ == spec_opening_bytes(*o),
{
    let mut r: Vec<u8> = Vec::new();
    let d: u8 = match o.direction {
        Direction::Sent => 0,
        Direction::Received => 1,
    };
    r.push(d);
    push_le64(&mut r, o.start);
    push_le64(&mut r, o.data.len() as u64);
    push_bytes(&mut r, &o.data);
    push_le64(&mut r, o.blinder.len() as u64);
    push_bytes(&mut r, &o.blinder);
    proof {
        assert(r@ =~= spec_opening_bytes(*o));
    }
    r
}

/// The commitment encoding pins every opening field: two openings with
/// the same encoding agree on direction, start offset, disclosed bytes
/// and blinder. So each committed slot binds exactly one disclosure, and
/// changing any bit of a disclosed byte or of the blinder changes the
/// bytes that the slot's digest is recomputed from.
pub proof fn lemma_opening_bytes_injective(a: SubstringsOpening, b: SubstringsOpening)
    requires
        spec_opening_bytes(a) == spec_opening_bytes(b),
    ensures
        a.direction == b.direction,
        a.start == b.start,
        a.data@ == b.data@,
        a.blinder@ == b.blinder@,
{
    vstd::std_specs::vec::axiom_spec_len(&a.data);
    vstd::std_specs::vec::axiom_spec_len(&b.data);
    vstd::std_specs::vec::axiom_spec_len(&a.blinder);
    vstd::std_specs::vec::axiom_spec_len(&b.blinder);
    let sa = spec_opening_bytes(a);
    let sb = spec_opening_bytes(b);
    let la = a.data@.len() as int;
    let lb = b.data@.len() as int;
    assert(sa[0] == dir_byte(a.direction));
    assert(sb[0] == dir_byte(b.direction));
    assert(a.direction == b.direction);
    assert(le64(a.start) =~= sa.subrange(1, 9));
    assert(le64(b.start) =~= sb.subrange(1, 9));
    lemma_le64_injective(a.start, b.start);
    assert(le64(a.data@.len() as u64) =~= sa.subrange(9, 17));
    assert(le64(b.data@.len() as u64) =~= sb.subrange(9, 17));
    lemma_le64_injective(a.data@.len() as u64, b.data@.len() as u64);
    assert(la == lb);
    assert(a.data@ =~= sa.subrange(17, 17 + la));
    assert(b.data@ =~= sb.subrange(17, 17 + lb));
    assert(le64(a.blinder@.len() as u64) =~= sa.subrange(17 + la, 25 + la));
    assert(le64(b.blinder@.len() as u64) =~= sb.subrange(17 + lb, 25 + lb));
    lemma_le64_injective(a.blinder@.len() as u64, b.blinder@.len() as u64);
    assert(a.blinder@ =~= sa.subrange(25 + la, sa.len() as int));
    assert(b.blinder@ =~= sb.subrange(25 + lb, sb.len() as int));
}

/// Every committed slot has the fixed 32-byte width of a digest; only then
/// is the concatenation that the top-level commitment hashes unambiguous.
pub open spec fn leaves_wf(p: SubstringsProof) -> bool {
    forall|i: int| 0 <= i < p.leaves@.len() ==> (#[trigger] p.leaves@[i])@.len() == 32
}

/// An opening claims a slot of the committed list and hashes to exactly
/// that slot's value.
pub open spec fn opening_committed(o: SubstringsOpening, leaves: Seq<Seq<u8>>) -> bool {
    0 <= o.leaf_index < leaves.len() && leaves[o.leaf_index as int] == sha256_of(
        spec_opening_bytes(o),
    )
}

/// The digest of the committed list equals the commitment in the signed
/// header, which binds the whole list, its length included.
pub open spec fn root_ok(p: SubstringsProof, h: SessionHeader) -> bool {
    sha256_of(crate::bytes::concat_bytes(views_of(p.leaves@))) == h.merkle_root@
}

/// The disclosed openings are consistent with the commitment in the signed
/// header: the digest of the committed list equals the header's commitment,
/// and every opening hashes to the slot it claims.
pub open spec fn commitments_ok(p: SubstringsProof, h: SessionHeader) -> bool {
    &&& root_ok(p, h)
    &&& forall|k: int|
        0 <= k < p.openings@.len() ==> opening_committed(
            #[trigger] p.openings@[k],
            views_of(p.leaves@),
        )
}

/// A disclosed span lies inside the committed transcript length of its
/// direction.
pub open spec fn opening_in_bounds(o: SubstringsOpening, h: SessionHeader) -> bool {
    o.start + o.data@.len() <= spec_dir_len(h, o.direction)
}

/// Every disclosed span is in bounds.
pub open spec fn all_in_bounds(p: SubstringsProof, h: SessionHeader) -> bool {
    forall|k: int| 0 <= k < p.openings@.len() ==> opening_in_bounds(#[trigger] p.openings@[k], h)
}

/// Two openings overlap when some byte position of one direction lies in
/// both spans. A span of length zero holds no position and overlaps
/// nothing, wherever it starts.
pub open spec fn openings_overlap(a: SubstringsOpening, b: SubstringsOpening) -> bool {
    a.direction == b.direction && a.data@.len() > 0 && b.data@.len() > 0 && a.start < b.start
        + b.data@.len() && b.start < a.start + a.data@.len()
}

/// No two of the openings overlap, so no byte position is disclosed twice,
/// possibly inconsistently.
pub open spec fn openings_disjoint(s: Seq<SubstringsOpening>) -> bool {
    forall|i: int, j: int|
        0 <= i < j < s.len() ==> !openings_overlap(#[trigger] s[i], #[trigger] s[j])
}

/// Which failure, if any, a substrings proof has against a session header:
/// a malformed committed list is reported first, then an opening that does
/// not match the commitment, then a span outside the committed length,
/// then overlapping spans.
pub open spec fn spec_substrings_error(p: SubstringsProof, h: SessionHeader) -> Option<
    VerifyError,
> {
    if !leaves_wf(p) {
        Some(VerifyError::MalformedProof)
    } else if !commitments_ok(p, h) {
        Some(VerifyError::CommitmentMismatch)
    } else if !all_in_bounds(p, h) {
        Some(VerifyError::RangeOutOfBounds)
    } else if !openings_disjoint(p.openings@) {
        Some(VerifyError::OverlappingRanges)
    } else {
        None
    }
}

/// The concatenation of the committed slots, the preimage of the top-level
/// commitment.
pub fn concat_leaves(leaves: &Vec<Vec<u8>>) -> (r: Vec<u8>)
    ensures
        r@ == crate::bytes::concat_bytes(views_of(leaves@)),
{
    let mut r: Vec<u8> = Vec::new();
    let mut i: usize = 0;
    while i < leaves.len()
        invariant
            i <= leaves@.len(),
            r@ == crate::bytes::concat_bytes(views_of(leaves@).take(i as int)),
        decreases leaves@.len() - i,
    {
        push_bytes(&mut r, &leaves[i]);
        i = i + 1;
        proof {
            let vs = views_of(leaves@);
            assert(vs.take(i as int).drop_last() =~= vs.take(i as int - 1));
            assert(vs.take(i as int).last() == vs[i as int - 1]);
        }
    }
    proof {
        assert(views_of(leaves@).take(leaves@.len() as int) =~= views_of(leaves@));
    }
    r
}

impl SubstringsProof {
    /// Verify the disclosed substrings against the attested session header
    /// and reconstruct the two transcript directions. Succeeds exactly when
    /// the committed list is well shaped and matches the header commitment,
    /// every opening hashes to the slot it claims, every span lies within
    /// the committed length of its direction, and no two spans overlap. On
    /// success the transcripts hold each disclosed byte at its position,
    /// mark it disclosed, and leave every other position zero and marked
    /// redacted; no partial success is ever exposed.
    pub fn verify(&self, header: &SessionHeader) -> (r: Result<
        (RedactedTranscript, RedactedTranscript),
        VerifyError,
    >)
        requires
            header.sent_len <= usize::MAX,
            header.recv_len <= usize::MAX,
        ensures
            r is Err <==> spec_substrings_error(*self, *header) is Some,
            r matches Err(e) ==> Some(e) == spec_substrings_error(*self, *header),
            r matches Ok(t) ==> filled_from(t.0, self.openings@, Direction::Sent, header.sent_len)
                && filled_from(t.1, self.openings@, Direction::Received, header.recv_len),
    {
        let mut i: usize = 0;
        while i < self.leaves.len()
            invariant
                i <= self.leaves@.len(),
                forall|j: int| 0 <= j < i ==> (#[trigger] self.leaves@[j])@.len() == 32,
            decreases self.leaves@.len() - i,
        {
            if self.leaves[i].len() != 32 {
                return Err(VerifyError::MalformedProof);
            }
            i = i + 1;
        }
        let all = concat_leaves(&self.leaves);
        let root = sha256(&all);
        if !bytes_eq(&root, &header.merkle_root) {
            return Err(VerifyError::CommitmentMismatch);
        }
        let mut k: usize = 0;
        while k < self.openings.len()
            invariant
                k <= self.openings@.len(),
                leaves_wf(*self),
                root_ok(*self, *header),
                forall|j: int|
                    0 <= j < k ==> opening_committed(
                        #[trigger] self.openings@[j],
                        views_of(self.leaves@),
                    ),
            decreases self.openings@.len() - k,
        {
            let o = &self.openings[k];
            if o.leaf_index >= self.leaves.len() {
                return Err(VerifyError::CommitmentMismatch);
            }
            let ob = opening_bytes(o);
            let c = sha256(&ob);
            if !bytes_eq(&c, &self.leaves[o.leaf_index]) {
                return Err(VerifyError::CommitmentMismatch);
            }
            k = k + 1;
        }
        let mut k: usize = 0;
        while k < self.openings.len()
            invariant
                k <= self.openings@.len(),
                leaves_wf(*self),
                commitments_ok(*self, *header),
                forall|j: int|
                    0 <= j < k ==> opening_in_bounds(#[trigger] self.openings@[j], *header),
            decreases self.openings@.len() - k,
        {
            let o = &self.openings[k];
            let lim = dir_len(header, o.direction);
            let len64 = o.data.len() as u64;
            if o.start > lim || len64 > lim - o.start {
                return Err(VerifyError::RangeOutOfBounds);
            }
            k = k + 1;
        }
        let mut a: usize = 0;
        while a < self.openings.len()
            invariant
                a <= self.openings@.len(),
                leaves_wf(*self),
                commitments_ok(*self, *header),
                all_in_bounds(*self, *header),
                forall|i2: int, j2: int|
                    0 <= i2 < a && i2 < j2 < self.openings@.len() ==> !openings_overlap(
                        #[trigger] self.openings@[i2],
                        #[trigger] self.openings@[j2],
                    ),
            decreases self.openings@.len() - a,
        {
            let oa = &self.openings[a];
            proof {
                assert(opening_in_bounds(self.openings@[a as int], *header));
            }
            let enda = oa.start + (oa.data.len() as u64);
            let mut b: usize = a + 1;
            while b < self.openings.len()
                invariant
                    a < b <= self.openings@.len(),
                    leaves_wf(*self),
                    commitments_ok(*self, *header),
                    all_in_bounds(*self, *header),
                    forall|i2: int, j2: int|
                        0 <= i2 < a && i2 < j2 < self.openings@.len() ==> !openings_overlap(
                            #[trigger] self.openings@[i2],
                            #[trigger] self.openings@[j2],
                        ),
                    *oa == self.openings@[a as int],
                    enda == self.openings@[a as int].start + self.openings@[a as int].data@.len(),
                    forall|j2: int|
                        a < j2 < b ==> !openings_overlap(
                            self.openings@[a as int],
                            #[trigger] self.openings@[j2],
                        ),
                decreases self.openings@.len() - b,
            {
                let ob = &self.openings[b];
                proof {
                    assert(opening_in_bounds(self.openings@[b as int], *header));
                }
                let endb = ob.start + (ob.data.len() as u64);
                if oa.direction == ob.direction && oa.data.len() > 0 && ob.data.len() > 0
                    && oa.start < endb && ob.start < enda {
                    return Err(VerifyError::OverlappingRanges);
                }
                b = b + 1;
            }
            a = a + 1;
        }
        let sent = reconstruct(&self.openings, Direction::Sent, header.sent_len);
        let recv = reconstruct(&self.openings, Direction::Received, header.recv_len);
        Ok((sent, recv))
    }
}

} // verus!
