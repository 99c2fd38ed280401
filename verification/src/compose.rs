//! The overlap compositor: how a freshly generated chunk joins the stream
//! that has been composed so far.

use std::collections::VecDeque;
use vstd::prelude::*;

verus! {

/// How the overlapping region of two consecutive chunks is resolved.
#[derive(Clone, Copy, Debug, PartialEq, Eq, Structural)]
pub enum OverlapPolicy {
    /// The end of the stream and the start of the chunk are blended, sample
    /// by sample along a ramp.
    CrossFade,
    /// The start of the chunk is dropped and the rest appended as it is.
    SkipDuplicate,
}

/// Number of samples that are blended: the overlap window, cut down to what
/// the stream and the chunk both hold.
pub open spec fn fade_len(window: nat, stream_len: nat, chunk_len: nat) -> nat {
    if window <= stream_len && window <= chunk_len {
        window
    } else if stream_len <= chunk_len {
        stream_len
    } else {
        chunk_len
    }
}

/// `after` is `before` cross-faded with `chunk`: the stream keeps all but its
/// last `fade_len` samples, each of those is replaced by what `blend` makes
/// of it and of the chunk's sample at the same ramp position, and the rest
/// of the chunk follows unchanged. `blend` is handed the outgoing sample,
/// the incoming sample, the ramp position and the ramp length.
pub open spec fn crossfaded<T, B: Fn(T, T, usize, usize) -> T>(
    blend: B,
    window: nat,
    before: Seq<T>,
    chunk: Seq<T>,
    after: Seq<T>,
) -> bool {
    let n = fade_len(window, before.len(), chunk.len());
    let keep = before.len() - n;
    &&& after.len() == keep + chunk.len()
    &&& forall|p: int| 0 <= p < keep ==> #[trigger] after[p] == before[p]
    &&& forall|p: int|
        keep <= p < before.len() ==> call_ensures(
            blend,
            (before[p], chunk[p - keep], (p - keep) as usize, n as usize),
            #[trigger] after[p],
        )
    &&& forall|p: int| before.len() <= p < after.len() ==> #[trigger] after[p] == chunk[p - keep]
}

/// The stream after a chunk joined it under the skip policy: the first
/// chunk whole, any later one without its first `skip` samples (without all
/// of them if it holds no more).
pub open spec fn skip_appended<T>(first: bool, skip: nat, before: Seq<T>, chunk: Seq<T>) -> Seq<T> {
    if first {
        before + chunk
    } else if skip <= chunk.len() {
        before + chunk.skip(skip as int)
    } else {
        before
    }
}

/// `after` is what `before` becomes when the chunk with index `index` joins
/// it under `policy`.
pub open spec fn composed<T, B: Fn(T, T, usize, usize) -> T>(
    policy: OverlapPolicy,
    blend: B,
    window: nat,
    index: nat,
    before: Seq<T>,
    chunk: Seq<T>,
    after: Seq<T>,
) -> bool {
    match policy {
        OverlapPolicy::CrossFade => crossfaded(blend, window, before, chunk, after),
        OverlapPolicy::SkipDuplicate => after == skip_appended(index == 0, window, before, chunk),
    }
}

/// The continuity context that a chunk leaves for the next call: its last
/// `window` samples, or all of it if it is shorter.
pub open spec fn continuity_of<T>(chunk: Seq<T>, window: nat) -> Seq<T> {
    if window <= chunk.len() {
        chunk.subrange(chunk.len() - window, chunk.len() as int)
    } else {
        chunk
    }
}

/// `blend` may be called at every position of every ramp.
pub open spec fn blend_callable<T, B: Fn(T, T, usize, usize) -> T>(blend: B) -> bool {
    forall|a: T, b: T, i: usize, n: usize| i < n ==> call_requires(blend, (a, b, i, n))
}

/// Appends `chunk` from its sample `from` on.
pub fn append_from<T: Copy>(stream: &mut VecDeque<T>, chunk: &VecDeque<T>, from: usize)
    requires
        from <= chunk@.len(),
    ensures
        final(stream)@ == old(stream)@ + chunk@.skip(from as int),
{
    let n: usize = chunk.len();
    let mut i: usize = from;
    while i < n
        invariant
            n == chunk@.len(),
            from <= i <= n,
            stream@ == old(stream)@ + chunk@.subrange(from as int, i as int),
        decreases n - i,
    {
        stream.push_back(chunk[i]);
        i = i + 1;
    }
    assert(chunk@.subrange(from as int, n as int) =~= chunk@.skip(from as int));
}

/// Copies the last `window` samples of a chunk, or the whole chunk if it is
/// shorter, as the continuity context of the next generator call.
pub fn continuity_tail<T: Copy>(chunk: &VecDeque<T>, window: usize) -> (tail: Vec<T>)
    ensures
        tail@ == continuity_of(chunk@, window as nat),
{
    let n: usize = chunk.len();
    let start: usize = if window <= n {
        n - window
    } else {
        0
    };
    let mut tail: Vec<T> = Vec::new();
    let mut i: usize = start;
    while i < n
        invariant
            n == chunk@.len(),
            start <= i <= n,
            tail@ == chunk@.subrange(start as int, i as int),
        decreases n - i,
    {
        tail.push(chunk[i]);
        i = i + 1;
    }
    assert(chunk@.subrange(0, n as int) =~= chunk@);
    tail
}

/// Cross-fades `chunk` into the end of `stream`. With an empty stream, an
/// empty chunk or a zero window nothing is blended and the chunk is
/// appended unchanged.
pub fn crossfade_into<T: Copy, B: Fn(T, T, usize, usize) -> T>(
    stream: &mut VecDeque<T>,
    chunk: &VecDeque<T>,
    window: usize,
    blend: &B,
)
    requires
        blend_callable(*blend),
    ensures
        crossfaded(*blend, window as nat, old(stream)@, chunk@, final(stream)@),
        final(stream)@.len() == old(stream)@.len() + chunk@.len() - fade_len(
            window as nat,
            old(stream)@.len(),
            chunk@.len(),
        ),
{
    let stream_len: usize = stream.len();
    let chunk_len: usize = chunk.len();
    let n: usize = if window <= stream_len && window <= chunk_len {
        window
    } else if stream_len <= chunk_len {
        stream_len
    } else {
        chunk_len
    };
    let keep: usize = stream_len - n;
    let mut faded: Vec<T> = Vec::new();
    let mut i: usize = 0;
    while i < n
        invariant
            blend_callable(*blend),
            stream@ == old(stream)@,
            stream_len == stream@.len(),
            chunk_len == chunk@.len(),
            n <= stream_len,
            n <= chunk_len,
            keep == stream_len - n,
            i <= n,
            faded@.len() == i,
            forall|j: int|
                0 <= j < i ==> call_ensures(
                    *blend,
                    (old(stream)@[keep + j], chunk@[j], j as usize, n),
                    #[trigger] faded@[j],
                ),
        decreases n - i,
    {
        let mixed: T = blend(stream[keep + i], chunk[i], i, n);
        faded.push(mixed);
        i = i + 1;
    }
    stream.truncate(keep);
    let mut k: usize = 0;
    while k < n
        invariant
            n == faded@.len(),
            k <= n,
            keep <= old(stream)@.len(),
            stream@ == old(stream)@.subrange(0, keep as int) + faded@.subrange(0, k as int),
        decreases n - k,
    {
        stream.push_back(faded[k]);
        k = k + 1;
    }
    assert(faded@.subrange(0, n as int) =~= faded@);
    let ghost mid = stream@;
    append_from(stream, chunk, n);
    proof {
        let after = stream@;
        let before = old(stream)@;
        assert(after == mid + chunk@.skip(n as int));
        assert forall|p: int| keep <= p < before.len() implies call_ensures(
            *blend,
            (before[p], chunk@[p - keep], (p - keep) as usize, n),
            #[trigger] after[p],
        ) by {
            assert(after[p] == faded@[p - keep]);
        }
    }
}

/// Composes `chunk`, the chunk with index `index` of its run, into `stream`
/// under the skip policy.
pub fn append_skipping<T: Copy>(
    stream: &mut VecDeque<T>,
    chunk: &VecDeque<T>,
    skip: usize,
    index: usize,
)
    ensures
        final(stream)@ == skip_appended(index == 0, skip as nat, old(stream)@, chunk@),
{
    if index == 0 {
        append_from(stream, chunk, 0);
        assert(chunk@.skip(0) =~= chunk@);
    } else if skip <= chunk.len() {
        append_from(stream, chunk, skip);
    }
}

/// Composes `chunk`, the chunk with index `index` of its run, into `stream`
/// under `policy`, with an overlap of `window` samples.
pub fn compose_chunk<T: Copy, B: Fn(T, T, usize, usize) -> T>(
    policy: OverlapPolicy,
    stream: &mut VecDeque<T>,
    chunk: &VecDeque<T>,
    window: usize,
    index: usize,
    blend: &B,
)
    requires
        blend_callable(*blend),
    ensures
        composed(policy, *blend, window as nat, index as nat, old(stream)@, chunk@, final(stream)@),
{
    match policy {
        OverlapPolicy::CrossFade => crossfade_into(stream, chunk, window, blend),
        OverlapPolicy::SkipDuplicate => append_skipping(stream, chunk, window, index),
    }
}

/// Two chunks under the cross-fade policy, both at least as long as the
/// window `w`: the first chunk enters the empty stream unchanged, and the
/// second shortens the result by the window, so that the output holds
/// `len(first) + len(second) - w` samples. What precedes the window is the
/// first chunk, bit for bit; inside the window the sample at ramp position
/// `i` is what `blend` makes of the two chunks' samples at position `i` of
/// `w`, so the ramp starts at position 0 on the first chunk's sample and
/// ends at position `w - 1`; what follows is the second chunk past the
/// window, bit for bit.
pub proof fn lemma_crossfade_two_chunks<T, B: Fn(T, T, usize, usize) -> T>(
    blend: B,
    w: nat,
    first: Seq<T>,
    second: Seq<T>,
    one: Seq<T>,
    both: Seq<T>,
)
    requires
        crossfaded(blend, w, Seq::<T>::empty(), first, one),
        crossfaded(blend, w, one, second, both),
        w <= first.len(),
        w <= second.len(),
    ensures
        one == first,
        both.len() == first.len() + second.len() - w,
        forall|p: int| 0 <= p < first.len() - w ==> #[trigger] both[p] == first[p],
        forall|i: int|
            0 <= i < w ==> call_ensures(
                blend,
                (first[first.len() - w + i], second[i], i as usize, w as usize),
                #[trigger] both[first.len() - w + i],
            ),
        forall|i: int| w <= i < second.len() ==> #[trigger] both[first.len() - w + i] == second[i],
{
    assert(one =~= first);
    assert forall|i: int| 0 <= i < w implies call_ensures(
        blend,
        (first[first.len() - w + i], second[i], i as usize, w as usize),
        #[trigger] both[first.len() - w + i],
    ) by {
        let p = first.len() - w + i;
        assert(call_ensures(
            blend,
            (one[p], second[p - (first.len() - w)], (p - (first.len() - w)) as usize, w as usize),
            both[p],
        ));
    }
    assert forall|i: int| w <= i < second.len() implies #[trigger] both[first.len() - w + i]
        == second[i] by {
        let p = first.len() - w + i;
        assert(both[p] == second[p - (first.len() - w)]);
    }
}

/// Two chunks under the skip policy, the second at least `skip` samples
/// long: the output holds `len(first) + len(second) - skip` samples, starts
/// with the first chunk, and goes on with the second chunk past the skip
/// offset, bit for bit and with nothing blended.
pub proof fn lemma_skip_two_chunks<T>(skip: nat, first: Seq<T>, second: Seq<T>)
    requires
        skip <= second.len(),
    ensures
        ({
            let one = skip_appended(true, skip, Seq::<T>::empty(), first);
            let both = skip_appended(false, skip, one, second);
            &&& one == first
            &&& both.len() == first.len() + second.len() - skip
            &&& both == first + second.skip(skip as int)
            &&& forall|p: int| 0 <= p < first.len() ==> #[trigger] both[p] == first[p]
            &&& forall|i: int|
                skip <= i < second.len() ==> #[trigger] both[first.len() + i - skip] == second[i]
        }),
{
    let one = skip_appended(true, skip, Seq::<T>::empty(), first);
    assert(one =~= first);
}

/// A chunk that joins an empty stream is appended unchanged under either
/// policy when it is the first of its run, and under the cross-fade policy
/// in any case.
pub proof fn lemma_first_chunk_unchanged<T, B: Fn(T, T, usize, usize) -> T>(
    policy: OverlapPolicy,
    blend: B,
    window: nat,
    chunk: Seq<T>,
    after: Seq<T>,
)
    requires
        composed(policy, blend, window, 0, Seq::<T>::empty(), chunk, after),
    ensures
        after == chunk,
{
    assert(after =~= chunk);
}

/// `blend` has one answer for each question.
pub open spec fn blend_deterministic<T, B: Fn(T, T, usize, usize) -> T>(blend: B) -> bool {
    forall|a: T, b: T, i: usize, n: usize, r1: T, r2: T|
        #[trigger] call_ensures(blend, (a, b, i, n), r1) && #[trigger] call_ensures(
            blend,
            (a, b, i, n),
            r2,
        ) ==> r1 == r2
}

/// With a blend that has one answer for each question, a stream and a chunk
/// compose in one way only.
pub proof fn lemma_composition_is_unique<T, B: Fn(T, T, usize, usize) -> T>(
    policy: OverlapPolicy,
    blend: B,
    window: nat,
    index: nat,
    before: Seq<T>,
    chunk: Seq<T>,
    one: Seq<T>,
    other: Seq<T>,
)
    requires
        blend_deterministic(blend),
        composed(policy, blend, window, index, before, chunk, one),
        composed(policy, blend, window, index, before, chunk, other),
    ensures
        one == other,
{
    if policy == OverlapPolicy::CrossFade {
        let n = fade_len(window, before.len(), chunk.len());
        let keep = before.len() - n;
        assert forall|p: int| 0 <= p < one.len() implies one[p] == other[p] by {
            if keep <= p < before.len() {
                assert(call_ensures(
                    blend,
                    (before[p], chunk[p - keep], (p - keep) as usize, n as usize),
                    one[p],
                ));
                assert(call_ensures(
                    blend,
                    (before[p], chunk[p - keep], (p - keep) as usize, n as usize),
                    other[p],
                ));
            }
        }
        assert(one =~= other);
    }
}

} // verus!
