//! The state of one chunked generation: what has been generated, what the
//! next generator call is asked for, and the stream composed so far.

use crate::compose::{blend_callable, compose_chunk, composed, continuity_of, continuity_tail, OverlapPolicy};
use crate::config::{chunking_valid, chunking_verdict, overlap_window, validate_chunking, window_samples, ConfigError};
use crate::schedule::{chunk_count, chunk_secs, elapsed_after, lemma_chunk_count_is_ceiling, lemma_elapsed};
use std::collections::VecDeque;
use vstd::prelude::*;

verus! {

/// The mathematical state of a chunked generation.
pub struct GenerationState<T> {
    /// Seconds of audio that were requested in all.
    pub total_secs: nat,
    /// Seconds per generator call.
    pub chunksize: nat,
    /// Seconds of overlap between consecutive chunks.
    pub overlap: nat,
    /// How overlapping chunks are joined.
    pub policy: OverlapPolicy,
    /// Number of chunks that have joined the stream.
    pub chunks: nat,
    /// Whether the progress observer asked to stop.
    pub stopped: bool,
    /// The stream composed so far.
    pub stream: Seq<T>,
    /// The tail of the latest chunk, absent before the first one.
    pub continuity: Option<Seq<T>>,
}

impl<T> GenerationState<T> {
    /// The overlap window in samples.
    pub open spec fn window(self) -> nat {
        window_samples(self.overlap)
    }

    /// Seconds generated so far.
    pub open spec fn elapsed(self) -> nat {
        elapsed_after(self.total_secs, self.chunksize, self.chunks)
    }

    /// No further generator call is due: every second has been generated,
    /// or the observer asked to stop.
    pub open spec fn done(self) -> bool {
        self.stopped || self.chunks >= chunk_count(self.total_secs, self.chunksize)
    }

    /// Duration of the next generator call, if one is due.
    pub open spec fn next_request(self) -> Option<nat> {
        if self.done() {
            None
        } else {
            Some(chunk_secs(self.total_secs, self.chunksize, self.chunks))
        }
    }

    /// The request is valid and the bookkeeping is consistent.
    pub open spec fn valid(self) -> bool {
        &&& chunking_valid(self.chunksize, self.overlap)
        &&& self.chunks <= chunk_count(self.total_secs, self.chunksize)
        &&& self.continuity is Some <==> self.chunks >= 1
    }

    /// The state before the first generator call.
    pub open spec fn initial(total_secs: nat, chunksize: nat, overlap: nat, policy: OverlapPolicy) -> Self {
        GenerationState {
            total_secs,
            chunksize,
            overlap,
            policy,
            chunks: 0,
            stopped: false,
            stream: Seq::empty(),
            continuity: None,
        }
    }

    /// `next` is this state after `chunk` joined the stream: the stream is
    /// composed with the chunk under the policy, the continuity context is
    /// the chunk's own tail, and one more chunk is counted.
    pub open spec fn accepts<B: Fn(T, T, usize, usize) -> T>(self, blend: B, chunk: Seq<T>, next: Self) -> bool {
        &&& next.total_secs == self.total_secs
        &&& next.chunksize == self.chunksize
        &&& next.overlap == self.overlap
        &&& next.policy == self.policy
        &&& next.chunks == self.chunks + 1
        &&& next.stopped == self.stopped
        &&& composed(self.policy, blend, self.window(), self.chunks, self.stream, chunk, next.stream)
        &&& next.continuity == Some(continuity_of(chunk, self.window()))
    }

    /// This state after the observer answered `stop`.
    pub open spec fn reported(self, stop: bool) -> Self {
        GenerationState { stopped: self.stopped || stop, ..self }
    }
}

/// One chunked generation in progress.
pub struct ChunkedGeneration<T> {
    total_secs: usize,
    chunksize: usize,
    overlap: usize,
    window: usize,
    policy: OverlapPolicy,
    generated: usize,
    chunks: usize,
    stopped: bool,
    stream: VecDeque<T>,
    continuity: Option<Vec<T>>,
}

impl<T> View for ChunkedGeneration<T> {
    type V = GenerationState<T>;

    closed spec fn view(&self) -> GenerationState<T> {
        GenerationState {
            total_secs: self.total_secs as nat,
            chunksize: self.chunksize as nat,
            overlap: self.overlap as nat,
            policy: self.policy,
            chunks: self.chunks as nat,
            stopped: self.stopped,
            stream: self.stream@,
            continuity: match self.continuity {
                Some(tail) => Some(tail@),
                None => None,
            },
        }
    }
}

impl<T: Copy> ChunkedGeneration<T> {
    /// The invariant of the type: a valid state, with the counters that are
    /// kept alongside it in step.
    pub closed spec fn wf(&self) -> bool {
        &&& self@.valid()
        &&& self.window == window_samples(self.overlap as nat)
        &&& self.generated == self@.elapsed()
    }

    /// Starts a generation of `total_secs` seconds in chunks of `chunksize`
    /// seconds that overlap by `overlap` seconds, or refuses the request.
    pub fn begin(total_secs: usize, chunksize: usize, overlap: usize, policy: OverlapPolicy) -> (r: Result<Self, ConfigError>)
        ensures
            match r {
                Ok(generation) => {
                    &&& chunking_verdict(chunksize, overlap) is Ok
                    &&& generation.wf()
                    &&& generation@ == GenerationState::<T>::initial(
                        total_secs as nat,
                        chunksize as nat,
                        overlap as nat,
                        policy,
                    )
                },
                Err(e) => chunking_verdict(chunksize, overlap) == Err::<(), ConfigError>(e),
            },
    {
        match validate_chunking(chunksize, overlap) {
            Err(e) => Err(e),
            Ok(()) => {
                let window: usize = overlap_window(overlap);
                let generation = ChunkedGeneration {
                    total_secs,
                    chunksize,
                    overlap,
                    window,
                    policy,
                    generated: 0,
                    chunks: 0,
                    stopped: false,
                    stream: VecDeque::new(),
                    continuity: None,
                };
                proof {
                    assert(0 * (chunksize as nat) == 0) by (nonlinear_arith);
                }
                Ok(generation)
            },
        }
    }

    /// Seconds requested in all.
    pub fn total_secs(&self) -> (secs: usize)
        ensures
            secs == self@.total_secs,
    {
        self.total_secs
    }

    /// Seconds generated so far.
    pub fn elapsed(&self) -> (secs: usize)
        requires
            self.wf(),
        ensures
            secs == self@.elapsed(),
            secs <= self@.total_secs,
    {
        self.generated
    }

    /// Number of chunks that have joined the stream.
    pub fn chunks(&self) -> (count: usize)
        ensures
            count == self@.chunks,
    {
        self.chunks
    }

    /// Whether no further generator call is due.
    pub fn is_done(&self) -> (done: bool)
        requires
            self.wf(),
        ensures
            done == self@.done(),
    {
        proof {
            lemma_elapsed(self@.total_secs, self@.chunksize, self@.chunks);
        }
        self.stopped || self.generated >= self.total_secs
    }

    /// Duration in seconds of the next generator call: a full chunk, or
    /// what remains of the total if that is less. `None` once the
    /// generation is done.
    pub fn next_request(&self) -> (secs: Option<usize>)
        requires
            self.wf(),
        ensures
            match secs {
                Some(s) => self@.next_request() == Some(s as nat) && 1 <= s <= self@.chunksize,
                None => self@.next_request() is None,
            },
    {
        proof {
            lemma_elapsed(self@.total_secs, self@.chunksize, self@.chunks);
        }
        if self.stopped || self.generated >= self.total_secs {
            None
        } else {
            let left: usize = self.total_secs - self.generated;
            if self.chunksize <= left {
                Some(self.chunksize)
            } else {
                Some(left)
            }
        }
    }

    /// The continuity context of the next generator call: the tail of the
    /// latest chunk as the generator returned it, absent before the first
    /// chunk.
    pub fn continuity(&self) -> (context: Option<&[T]>)
        ensures
            match context {
                Some(tail) => self@.continuity == Some(tail@),
                None => self@.continuity is None,
            },
    {
        match &self.continuity {
            Some(tail) => Some(tail.as_slice()),
            None => None,
        }
    }

    /// Takes the chunk that the generator returned for the pending request:
    /// composes it into the stream, keeps its tail as the next continuity
    /// context and advances the elapsed time by the requested duration.
    pub fn accept<B: Fn(T, T, usize, usize) -> T>(&mut self, chunk: &VecDeque<T>, blend: &B)
        requires
            old(self).wf(),
            !old(self)@.done(),
            blend_callable(*blend),
        ensures
            final(self).wf(),
            old(self)@.accepts(*blend, chunk@, final(self)@),
            final(self)@.elapsed() == old(self)@.elapsed() + old(self)@.next_request()->0,
    {
        proof {
            lemma_elapsed(self@.total_secs, self@.chunksize, self@.chunks);
            lemma_chunk_count_is_ceiling(self@.total_secs, self@.chunksize);
            let n = chunk_count(self@.total_secs, self@.chunksize) as int;
            let c = self@.chunksize as int;
            assert(n - 1 <= (n - 1) * c) by (nonlinear_arith)
                requires
                    n >= 1,
                    c >= 1,
            ;
        }
        let left: usize = self.total_secs - self.generated;
        let secs: usize = if self.chunksize <= left {
            self.chunksize
        } else {
            left
        };
        compose_chunk(self.policy, &mut self.stream, chunk, self.window, self.chunks, blend);
        self.continuity = Some(continuity_tail(chunk, self.window));
        self.generated = self.generated + secs;
        self.chunks = self.chunks + 1;
    }

    /// Records the observer's answer to the progress report that follows a
    /// chunk. An answer of `true` ends the generation: no further generator
    /// call is due, and the stream stays as it is.
    pub fn report(&mut self, stop: bool)
        requires
            old(self).wf(),
        ensures
            final(self).wf(),
            final(self)@ == old(self)@.reported(stop),
            stop ==> final(self)@.done() && final(self)@.next_request() is None,
    {
        if stop {
            self.stopped = true;
        }
    }

    /// Ends the generation and hands out the composed stream.
    pub fn into_stream(self) -> (stream: VecDeque<T>)
        ensures
            stream@ == self@.stream,
    {
        self.stream
    }
}

} // verus!
