//! Streaming byte correction: every payload from the source begins with two
//! bytes that form an invalid leading marker which the downstream transcoder
//! rejects. The patcher zeroes exactly stream-absolute bytes 0 and 1,
//! however the transport chunks the stream, and mutates nothing else.

use vstd::math::min;
use vstd::prelude::*;

verus! {

/// A chunk as it must leave the patcher when `offset` bytes of the stream
/// precede it: positions whose stream-absolute index falls below 2 become
/// zero, every other byte is unchanged.
pub open spec fn patch_from(offset: int, chunk: Seq<u8>) -> Seq<u8> {
    Seq::new(chunk.len(), |i: int| if offset + i < 2 { 0u8 } else { chunk[i] })
}

/// A whole payload after correction: bytes 0 and 1 zeroed, the rest intact.
pub open spec fn patched(payload: Seq<u8>) -> Seq<u8> {
    patch_from(0, payload)
}

/// The correction changes nothing but the two leading bytes: the length is
/// kept, bytes 0 and 1 come out zero, and every byte from index 2 on is the
/// original.
pub proof fn lemma_patched_bytes(payload: Seq<u8>)
    ensures
        patched(payload).len() == payload.len(),
        forall|i: int| 0 <= i < payload.len() && i < 2 ==> patched(payload)[i] == 0u8,
        forall|i: int| 2 <= i < payload.len() ==> patched(payload)[i] == payload[i],
{
}

/// Only how many of the first two bytes precede a chunk matters, not the
/// exact offset.
pub proof fn lemma_patch_from_min(offset: int, chunk: Seq<u8>)
    requires
        offset >= 0,
    ensures
        patch_from(offset, chunk) == patch_from(min(offset, 2), chunk),
{
    assert(patch_from(offset, chunk) =~= patch_from(min(offset, 2), chunk));
}

/// Chunking independence: correcting a stream piece by piece, each piece at
/// its own stream-absolute offset, agrees with correcting the concatenation
/// in one pass.
pub proof fn lemma_patch_append(offset: int, a: Seq<u8>, b: Seq<u8>)
    requires
        offset >= 0,
    ensures
        patch_from(offset, a + b) == patch_from(offset, a) + patch_from(
            offset + a.len(),
            b,
        ),
{
    assert(patch_from(offset, a + b) =~= patch_from(offset, a) + patch_from(
        offset + a.len(),
        b,
    ));
}

/// Correct one chunk, given how many of the two defect bytes were already
/// seen in earlier chunks.
fn patch_vec(seen: u8, chunk: &Vec<u8>) -> (out: Vec<u8>)
    requires
        seen <= 2,
    ensures
        out@ == patch_from(seen as int, chunk@),
{
    let remaining: usize = 2 - (seen as usize);
    let mut out: Vec<u8> = Vec::new();
    let mut i: usize = 0;
    while i < chunk.len()
        invariant
            seen <= 2,
            remaining == 2 - (seen as int),
            i <= chunk.len(),
            out@ == patch_from(seen as int, chunk@.take(i as int)),
        decreases chunk.len() - i,
    {
        let b: u8 = if i < remaining {
            0
        } else {
            chunk[i]
        };
        out.push(b);
        proof {
            assert(out@ =~= patch_from(seen as int, chunk@.take(i as int + 1)));
        }
        i = i + 1;
    }
    proof {
        assert(chunk@.take(chunk@.len() as int) =~= chunk@);
    }
    out
}

/// Carried state of the streaming correction: how many of the two leading
/// defect bytes have passed through so far. The count saturates at two,
/// which is all any later chunk needs to know — in particular a first chunk
/// of length 0 or 1 leaves part of the defect for its successors.
pub struct Patcher {
    seen: u8,
}

impl Patcher {
    /// How many of the two defect bytes this patcher has consumed.
    pub closed spec fn seen_of_two(self) -> int {
        self.seen as int
    }

    pub closed spec fn wf(self) -> bool {
        self.seen <= 2
    }

    /// A patcher that has seen none of the stream yet.
    pub fn new() -> (r: Patcher)
        ensures
            r.wf(),
            r.seen_of_two() == 0,
    {
        Patcher { seen: 0 }
    }

    /// Correct the next transport chunk: every byte whose stream-absolute
    /// index falls below 2 comes out zero, every other byte is unchanged,
    /// and the carried count advances by the chunk length, saturating at 2.
    pub fn process_chunk(&mut self, chunk: &Vec<u8>) -> (out: Vec<u8>)
        requires
            old(self).wf(),
        ensures
            final(self).wf(),
            out@ == patch_from(old(self).seen_of_two(), chunk@),
            final(self).seen_of_two() == min(
                old(self).seen_of_two() + chunk@.len(),
                2,
            ),
    {
        let out = patch_vec(self.seen, chunk);
        let remaining: usize = 2 - (self.seen as usize);
        if chunk.len() < remaining {
            self.seen = self.seen + (chunk.len() as u8);
        } else {
            self.seen = 2;
        }
        out
    }
}

/// Correct a whole payload held in memory: zero bytes 0 and 1 in place and
/// leave every other byte, and the length, unchanged.
pub fn patch_payload(data: &mut Vec<u8>)
    ensures
        final(data)@ == patched(old(data)@),
{
    if data.len() > 0 {
        data.set(0, 0);
    }
    if data.len() > 1 {
        data.set(1, 0);
    }
    proof {
        assert(data@ =~= patched(old(data)@));
    }
}

/// Run a stream through a fresh patcher chunk by chunk and collect the
/// output: whatever the chunking — including leading chunks of length 0 or
/// 1 — the result is the corrected concatenation of the chunks.
pub fn patch_chunks(chunks: &Vec<Vec<u8>>) -> (out: Vec<u8>)
    ensures
        out@ == patched(chunks@.map_values(|c: Vec<u8>| c@).flatten()),
{
    let ghost all: Seq<Seq<u8>> = chunks@.map_values(|c: Vec<u8>| c@);
    let mut patcher = Patcher::new();
    let mut out: Vec<u8> = Vec::new();
    let mut i: usize = 0;
    proof {
        assert(all.take(0) =~= Seq::<Seq<u8>>::empty());
        assert(all.take(0).flatten() =~= Seq::<u8>::empty());
        assert(out@ =~= patched(all.take(0).flatten()));
    }
    while i < chunks.len()
        invariant
            i <= chunks.len(),
            all == chunks@.map_values(|c: Vec<u8>| c@),
            patcher.wf(),
            out@ == patched(all.take(i as int).flatten()),
            patcher.seen_of_two() == min(all.take(i as int).flatten().len() as int, 2),
        decreases chunks.len() - i,
    {
        let ghost prefix: Seq<u8> = all.take(i as int).flatten();
        let mut piece = patcher.process_chunk(&chunks[i]);
        out.append(&mut piece);
        proof {
            all.take(i as int).lemma_flatten_push(all[i as int]);
            assert(all.take(i as int).push(all[i as int]) =~= all.take(i as int + 1));
            lemma_patch_append(0, prefix, all[i as int]);
            lemma_patch_from_min(prefix.len() as int, all[i as int]);
        }
        i = i + 1;
    }
    proof {
        assert(all.take(chunks@.len() as int) =~= all);
    }
    out
}

} // verus!
