use vstd::prelude::*;
use crate::substrings::{openings_disjoint, openings_overlap, Direction, SubstringsOpening};

verus! {

/// One direction of a reconstructed transcript: a byte for every committed
/// position, and a mark saying which positions were disclosed. Built by
/// reconstruction, then mutated only by `set_redacted`.
pub struct RedactedTranscript {
    /// The transcript bytes, of exactly the committed length.
    pub data: Vec<u8>,
    /// For each position, whether its byte was disclosed.
    pub disclosed: Vec<bool>,
}

/// Opening `o` discloses position `i` of direction `d`.
pub open spec fn covers(o: SubstringsOpening, d: Direction, i: int) -> bool {
    o.direction == d && o.start <= i < o.start + o.data@.len()
}

/// Some opening of the list discloses position `i` of direction `d`.
pub open spec fn covered(s: Seq<SubstringsOpening>, d: Direction, i: int) -> bool {
    exists|k: int| 0 <= k < s.len() && covers(#[trigger] s[k], d, i)
}

/// The transcript `t` is direction `d` reconstructed from the openings `s`
/// with committed total length `total`: it has exactly `total` positions;
/// every position a span of `s` discloses holds that span's byte and is
/// marked disclosed; and every other position is zero and marked redacted.
pub open spec fn filled_from(
    t: RedactedTranscript,
    s: Seq<SubstringsOpening>,
    d: Direction,
    total: u64,
) -> bool {
    &&& t.data@.len() == total
    &&& t.disclosed@.len() == total
    &&& forall|k: int, off: int|
        0 <= k < s.len() && s[k].direction == d && 0 <= off < s[k].data@.len()
            ==> t.data@[s[k].start + off] == #[trigger] s[k].data@[off]
                && t.disclosed@[s[k].start + off]
    &&& forall|i: int|
        0 <= i < total && !(#[trigger] covered(s, d, i)) ==> !t.disclosed@[i] && t.data@[i] == 0
}

/// The transcript `t` is direction `d` of the final verification output
/// for the openings `s`: every disclosed position holds its opening's
/// byte, and every other position holds exactly the sentinel.
pub open spec fn redacted_ok(
    t: RedactedTranscript,
    s: Seq<SubstringsOpening>,
    d: Direction,
    total: u64,
    sentinel: u8,
) -> bool {
    &&& t.data@.len() == total
    &&& t.disclosed@.len() == total
    &&& forall|k: int, off: int|
        0 <= k < s.len() && s[k].direction == d && 0 <= off < s[k].data@.len()
            ==> t.data@[s[k].start + off] == #[trigger] s[k].data@[off]
                && t.disclosed@[s[k].start + off]
    &&& forall|i: int|
        0 <= i < total && !(#[trigger] covered(s, d, i)) ==> !t.disclosed@[i] && t.data@[i]
            == sentinel
}

/// Reconstruction is deterministic: any two transcripts that are valid
/// outputs for the same disjoint openings, direction, committed length
/// and sentinel hold the same bytes and the same disclosure marks.
pub proof fn lemma_redacted_unique(
    t1: RedactedTranscript,
    t2: RedactedTranscript,
    s: Seq<SubstringsOpening>,
    d: Direction,
    total: u64,
    sentinel: u8,
)
    requires
        redacted_ok(t1, s, d, total, sentinel),
        redacted_ok(t2, s, d, total, sentinel),
    ensures
        t1.data@ == t2.data@,
        t1.disclosed@ == t2.disclosed@,
{
    assert forall|i: int| 0 <= i < total implies t1.data@[i] == t2.data@[i] && t1.disclosed@[i]
        == t2.disclosed@[i] by {
        if covered(s, d, i) {
            let k = choose|k: int| 0 <= k < s.len() && covers(#[trigger] s[k], d, i);
            let off = i - s[k].start;
            assert(t1.data@[s[k].start + off] == s[k].data@[off] && t1.disclosed@[s[k].start
                + off]);
            assert(t2.data@[s[k].start + off] == s[k].data@[off] && t2.disclosed@[s[k].start
                + off]);
        } else {
            assert(!t1.disclosed@[i] && t1.data@[i] == sentinel);
            assert(!t2.disclosed@[i] && t2.data@[i] == sentinel);
        }
    }
    assert(t1.data@ =~= t2.data@);
    assert(t1.disclosed@ =~= t2.disclosed@);
}

/// Reconstruction completeness: in a reconstructed and redacted
/// transcript, every position of the committed length holds either a byte
/// some opening disclosed at exactly that position or the sentinel; no
/// position is left unset.
pub proof fn lemma_reconstruction_complete(
    t: RedactedTranscript,
    s: Seq<SubstringsOpening>,
    d: Direction,
    total: u64,
    sentinel: u8,
)
    requires
        redacted_ok(t, s, d, total, sentinel),
    ensures
        forall|i: int|
            0 <= i < total ==> ((exists|k: int, off: int|
                0 <= k < s.len() && s[k].direction == d && 0 <= off < s[k].data@.len() && i
                    == s[k].start + off && t.data@[i] == #[trigger] s[k].data@[off]) || (
            #[trigger] t.data@[i]) == sentinel),
{
    assert forall|i: int|
        0 <= i < total && !((#[trigger] t.data@[i]) == sentinel) implies (exists|k: int, off: int|
        0 <= k < s.len() && s[k].direction == d && 0 <= off < s[k].data@.len() && i == s[k].start
            + off && t.data@[i] == #[trigger] s[k].data@[off]) by {
        assert(covered(s, d, i));
        let k = choose|k: int| 0 <= k < s.len() && covers(#[trigger] s[k], d, i);
        let off = i - s[k].start;
        assert(t.data@[s[k].start + off] == s[k].data@[off]);
        assert(0 <= k < s.len() && s[k].direction == d && 0 <= off < s[k].data@.len() && i
            == s[k].start + off && t.data@[i] == s[k].data@[off]);
    }
}

/// Appending an opening to a list discloses a position exactly when the
/// list already disclosed it or the new opening does.
proof fn lemma_covered_push(s: Seq<SubstringsOpening>, o: SubstringsOpening, d: Direction, i: int)
    ensures
        covered(s.push(o), d, i) <==> (covered(s, d, i) || covers(o, d, i)),
{
    if covered(s, d, i) {
        let k = choose|k: int| 0 <= k < s.len() && covers(#[trigger] s[k], d, i);
        assert(s.push(o)[k] == s[k]);
        assert(covered(s.push(o), d, i));
    }
    if covers(o, d, i) {
        assert(s.push(o)[s.len() as int] == o);
        assert(covered(s.push(o), d, i));
    }
    if covered(s.push(o), d, i) {
        let k = choose|k: int| 0 <= k < s.push(o).len() && covers(#[trigger] s.push(o)[k], d, i);
        if k < s.len() {
            assert(s.push(o)[k] == s[k]);
            assert(covered(s, d, i));
        } else {
            assert(s.push(o)[k] == o);
        }
    }
}

/// Place one opening's bytes at their positions and mark them disclosed,
/// leaving every position outside the opening's span untouched.
fn write_opening(data: &mut Vec<u8>, disclosed: &mut Vec<bool>, o: &SubstringsOpening)
    requires
        old(data)@.len() == old(disclosed)@.len(),
        o.start + o.data@.len() <= old(data)@.len(),
        old(data)@.len() <= usize::MAX,
    ensures
        final(data)@.len() == old(data)@.len(),
        final(disclosed)@.len() == old(disclosed)@.len(),
        forall|off: int|
            0 <= off < o.data@.len() ==> final(data)@[o.start + off] == #[trigger] o.data@[off]
                && final(disclosed)@[o.start + off],
        forall|i: int|
            0 <= i < old(data)@.len() && !(o.start <= i < o.start + o.data@.len()) ==> (
            #[trigger] final(data)@[i]) == old(data)@[i] && final(disclosed)@[i] == old(
                disclosed,
            )@[i],
{
    let start: usize = o.start as usize;
    let mut off: usize = 0;
    while off < o.data.len()
        invariant
            off <= o.data@.len(),
            start == o.start,
            o.start + o.data@.len() <= data@.len(),
            data@.len() == old(data)@.len(),
            disclosed@.len() == old(disclosed)@.len(),
            data@.len() == disclosed@.len(),
            data@.len() <= usize::MAX,
            forall|off2: int|
                0 <= off2 < off ==> data@[o.start + off2] == #[trigger] o.data@[off2]
                    && disclosed@[o.start + off2],
            forall|i: int|
                0 <= i < data@.len() && !(o.start <= i < o.start + off) ==> (#[trigger] data@[i])
                    == old(data)@[i] && disclosed@[i] == old(disclosed)@[i],
        decreases o.data@.len() - off,
    {
        let ghost prev = data@;
        let ghost prev_dis = disclosed@;
        data.set(start + off, o.data[off]);
        disclosed.set(start + off, true);
        off = off + 1;
        proof {
            assert forall|off2: int|
                0 <= off2 < off implies data@[o.start + off2] == #[trigger] o.data@[off2]
                && disclosed@[o.start + off2] by {
                if off2 == off - 1 {
                    assert(data@[o.start + off2] == o.data@[off2]);
                    assert(disclosed@[o.start + off2]);
                } else {
                    assert(prev[o.start + off2] == o.data@[off2]);
                    assert(prev_dis[o.start + off2]);
                    assert(o.start + off2 != o.start + (off - 1));
                    assert(data@[o.start + off2] == prev[o.start + off2]);
                    assert(disclosed@[o.start + off2] == prev_dis[o.start + off2]);
                }
            }
            assert forall|i: int|
                0 <= i < data@.len() && !(o.start <= i < o.start + off) implies (
            #[trigger] data@[i]) == old(data)@[i] && disclosed@[i] == old(disclosed)@[i] by {
                assert(!(o.start <= i < o.start + (off - 1)));
                assert(prev[i] == old(data)@[i]);
                assert(prev_dis[i] == old(disclosed)@[i]);
                assert(i != o.start + (off - 1));
                assert(data@[i] == prev[i]);
                assert(disclosed@[i] == prev_dis[i]);
            }
        }
    }
}

/// Reconstruct one direction of the transcript from validated openings:
/// every disclosed byte is placed at its committed position and marked
/// disclosed, and every remaining position is zero and marked redacted.
/// Reconstruction is total: on disjoint, in-bounds openings it always
/// succeeds, and it performs no cryptographic checks of its own.
pub fn reconstruct(openings: &Vec<SubstringsOpening>, d: Direction, total: u64) -> (t:
    RedactedTranscript)
    requires
        total <= usize::MAX,
        forall|k: int|
            0 <= k < openings@.len() && (#[trigger] openings@[k]).direction == d
                ==> openings@[k].start + openings@[k].data@.len() <= total,
        openings_disjoint(openings@),
    ensures
        filled_from(t, openings@, d, total),
{
    let n: usize = total as usize;
    let mut data: Vec<u8> = Vec::new();
    let mut disclosed: Vec<bool> = Vec::new();
    while data.len() < n
        invariant
            data@.len() == disclosed@.len(),
            data@.len() <= n,
            forall|i: int| 0 <= i < data@.len() ==> (#[trigger] data@[i]) == 0 && !disclosed@[i],
        decreases n - data@.len(),
    {
        data.push(0);
        disclosed.push(false);
    }
    proof {
        assert forall|i: int|
            0 <= i < total && !(#[trigger] covered(openings@.take(0), d, i)) implies !disclosed@[i]
            && data@[i] == 0 by {
            assert(data@[i] == 0);
            assert(!disclosed@[i]);
        }
    }
    let mut k: usize = 0;
    while k < openings.len()
        invariant
            k <= openings@.len(),
            data@.len() == total,
            disclosed@.len() == total,
            total <= usize::MAX,
            forall|k2: int|
                0 <= k2 < openings@.len() && (#[trigger] openings@[k2]).direction == d
                    ==> openings@[k2].start + openings@[k2].data@.len() <= total,
            openings_disjoint(openings@),
            forall|j: int, off: int|
                0 <= j < k && openings@[j].direction == d && 0 <= off < openings@[j].data@.len()
                    ==> data@[openings@[j].start + off] == #[trigger] openings@[j].data@[off]
                    && disclosed@[openings@[j].start + off],
            forall|i: int|
                0 <= i < total && !(#[trigger] covered(openings@.take(k as int), d, i))
                    ==> !disclosed@[i] && data@[i] == 0,
        decreases openings@.len() - k,
    {
        let ghost pre = data@;
        let ghost pre_dis = disclosed@;
        let ghost prefix = openings@.take(k as int);
        let o = &openings[k];
        if exec_dir_eq(o.direction, d) {
            proof {
                assert(openings@[k as int].start + openings@[k as int].data@.len() <= total);
            }
            write_opening(&mut data, &mut disclosed, o);
        }
        k = k + 1;
        proof {
            let oo = openings@[k as int - 1];
            assert(openings@.take(k as int) =~= prefix.push(oo));
            assert forall|j: int, off: int|
                0 <= j < k && openings@[j].direction == d && 0 <= off
                    < openings@[j].data@.len() implies data@[openings@[j].start + off]
                == #[trigger] openings@[j].data@[off] && disclosed@[openings@[j].start + off] by {
                let pos = openings@[j].start + off;
                if j == k - 1 {
                    assert(data@[pos] == openings@[j].data@[off]);
                    assert(disclosed@[pos]);
                } else {
                    assert(pre[pos] == openings@[j].data@[off]);
                    assert(pre_dis[pos]);
                    if oo.direction == d && oo.start <= pos < oo.start + oo.data@.len() {
                        assert(openings_overlap(openings@[j], oo));
                        assert(false);
                    }
                    assert(data@[pos] == pre[pos]);
                    assert(disclosed@[pos] == pre_dis[pos]);
                }
            }
            assert forall|i: int|
                0 <= i < total && !(#[trigger] covered(openings@.take(k as int), d, i)) implies !disclosed@[i]
                && data@[i] == 0 by {
                lemma_covered_push(prefix, oo, d, i);
                assert(!covered(prefix, d, i));
                assert(!covers(oo, d, i));
                assert(pre_dis[i] == false);
                assert(pre[i] == 0);
                if oo.direction == d {
                    assert(!(oo.start <= i < oo.start + oo.data@.len()));
                    assert(data@[i] == pre[i]);
                    assert(disclosed@[i] == pre_dis[i]);
                }
                assert(!disclosed@[i]);
                assert(data@[i] == 0);
            }
        }
    }
    proof {
        assert(openings@.take(openings@.len() as int) =~= openings@);
    }
    RedactedTranscript { data, disclosed }
}

/// Whether two directions are the same.
fn exec_dir_eq(a: Direction, b: Direction) -> (r: bool)
    ensures
        r == (a == b),
{
    a == b
}

impl RedactedTranscript {
    /// A transcript's byte and mark lists describe the same positions.
    pub open spec fn wf(&self) -> bool {
        self.data@.len() == self.disclosed@.len()
    }

    /// The transcript bytes.
    pub fn data(&self) -> (r: &Vec<u8>)
        ensures
            r@ == self.data@,
    {
        &self.data
    }

    /// Overwrite every position that was not disclosed with the sentinel
    /// byte, leaving every disclosed byte as it was.
    pub fn set_redacted(&mut self, sentinel: u8)
        requires
            old(self).wf(),
        ensures
            final(self).wf(),
            final(self).data@.len() == old(self).data@.len(),
            final(self).disclosed@ == old(self).disclosed@,
            forall|i: int|
                0 <= i < old(self).data@.len() ==> final(self).data@[i] == (if old(
                    self,
                ).disclosed@[i] {
                    old(self).data@[i]
                } else {
                    sentinel
                }),
    {
        let mut i: usize = 0;
        while i < self.data.len()
            invariant
                old(self).wf(),
                i <= self.data@.len(),
                self.data@.len() == old(self).data@.len(),
                self.disclosed@ == old(self).disclosed@,
                forall|j: int|
                    0 <= j < i ==> self.data@[j] == (if old(self).disclosed@[j] {
                        old(self).data@[j]
                    } else {
                        sentinel
                    }),
                forall|j: int| i <= j < self.data@.len() ==> self.data@[j] == old(self).data@[j],
            decreases self.data@.len() - i,
        {
            if !self.disclosed[i] {
                self.data.set(i, sentinel);
            }
            i = i + 1;
        }
    }
}

} // verus!

