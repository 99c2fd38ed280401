//! The job processor: drives a segment generator chunk by chunk and
//! stitches what it returns into one stream.

use crate::compose::{blend_callable, blend_deterministic, composed, continuity_of, lemma_composition_is_unique, OverlapPolicy};
use crate::config::{chunking_valid, chunking_verdict, window_samples, ConfigError};
use crate::orchestrator::ChunkedGeneration;
use crate::schedule::{chunk_count, chunk_secs, durations, elapsed_after, lemma_schedule_covers_total, sum};
use std::collections::VecDeque;
use std::sync::Arc;
use vstd::prelude::*;

verus! {

/// Why a chunked generation returned no audio.
pub enum ProcessError<E> {
    /// The request was refused before the generator was called.
    Configuration(ConfigError),
    /// A generator call failed; what had been composed is discarded.
    Generation(E),
}

/// The record of one run: what the generator returned for each call, the
/// stream after each chunk joined it, and what the progress observer
/// answered after each chunk.
pub struct Run<T> {
    /// The chunks as the generator returned them, in order.
    pub chunks: Seq<VecDeque<T>>,
    /// `streams[j]` is the stream once chunk `j` has joined it.
    pub streams: Seq<Seq<T>>,
    /// `stops[j]` is the observer's answer after chunk `j`.
    pub stops: Seq<bool>,
}

impl<T> Run<T> {
    /// Number of chunks generated.
    pub open spec fn len(self) -> nat {
        self.chunks.len()
    }

    /// The stream before chunk `j` joins it.
    pub open spec fn stream_before(self, j: int) -> Seq<T> {
        if j <= 0 {
            Seq::empty()
        } else {
            self.streams[j - 1]
        }
    }

    /// The continuity context handed to call `j`: none for the first call,
    /// the tail of the previous chunk for every later one.
    pub open spec fn context_before(self, window: nat, j: int) -> Option<Seq<T>> {
        if j <= 0 {
            None
        } else {
            Some(continuity_of(self.chunks[j - 1]@, window))
        }
    }

    /// The stream at the end of the run.
    pub open spec fn final_stream(self) -> Seq<T> {
        self.stream_before(self.len() as int)
    }

    /// Whether the observer asked to stop after the last chunk.
    pub open spec fn stopped(self) -> bool {
        self.len() >= 1 && self.stops[self.len() - 1]
    }
}

/// The generator, asked for `secs` seconds of `prompt` with the continuity
/// context `context`, may answer `answer`.
pub open spec fn asked<T, E, G: Fn(&str, usize, Option<&[T]>) -> Result<VecDeque<T>, E>>(
    generate: G,
    prompt: &str,
    secs: usize,
    context: Option<Seq<T>>,
    answer: Result<VecDeque<T>, E>,
) -> bool {
    match context {
        None => call_ensures(generate, (prompt, secs, None::<&[T]>), answer),
        Some(tail) => exists|history: &[T]|
            history@ == tail && #[trigger] call_ensures(generate, (prompt, secs, Some(history)), answer),
    }
}

/// The generator may be called for every duration up to a chunk, with any
/// continuity context.
pub open spec fn generator_callable<T, E, G: Fn(&str, usize, Option<&[T]>) -> Result<VecDeque<T>, E>>(
    generate: G,
    prompt: &str,
    chunksize: usize,
) -> bool {
    forall|secs: usize, context: Option<&[T]>|
        1 <= secs <= chunksize ==> call_requires(generate, (prompt, secs, context))
}

/// The observer may be called with every elapsed time up to the total.
pub open spec fn observer_callable<P: Fn(usize, usize) -> bool>(on_progress: P, total_secs: usize) -> bool {
    forall|elapsed: usize| 1 <= elapsed <= total_secs ==> call_requires(on_progress, (elapsed, total_secs))
}

/// Step `j` of `run` is one round of the scheduler: the generator was asked
/// for the duration that the schedule gives call `j`, with the tail of the
/// previous chunk as context; its chunk joined the stream under the policy;
/// the observer was told the elapsed and the total time; and unless this
/// was the last chunk of the run, the observer did not ask to stop.
pub open spec fn step_taken<
    T,
    E,
    G: Fn(&str, usize, Option<&[T]>) -> Result<VecDeque<T>, E>,
    B: Fn(T, T, usize, usize) -> T,
    P: Fn(usize, usize) -> bool,
>(
    generate: G,
    blend: B,
    on_progress: P,
    prompt: &str,
    total_secs: usize,
    chunksize: usize,
    overlap: usize,
    policy: OverlapPolicy,
    run: Run<T>,
    j: int,
) -> bool {
    let window = window_samples(overlap as nat);
    &&& asked(
        generate,
        prompt,
        chunk_secs(total_secs as nat, chunksize as nat, j as nat) as usize,
        run.context_before(window, j),
        Ok::<VecDeque<T>, E>(run.chunks[j]),
    )
    &&& composed(policy, blend, window, j as nat, run.stream_before(j), run.chunks[j]@, run.streams[j])
    &&& call_ensures(
        on_progress,
        (elapsed_after(total_secs as nat, chunksize as nat, (j + 1) as nat) as usize, total_secs),
        run.stops[j],
    )
    &&& j + 1 < run.len() ==> !run.stops[j]
}

/// `run` is a run of the scheduler on the given request: no more chunks
/// than the schedule has calls, and every step taken as `step_taken` says.
pub open spec fn run_taken<
    T,
    E,
    G: Fn(&str, usize, Option<&[T]>) -> Result<VecDeque<T>, E>,
    B: Fn(T, T, usize, usize) -> T,
    P: Fn(usize, usize) -> bool,
>(
    generate: G,
    blend: B,
    on_progress: P,
    prompt: &str,
    total_secs: usize,
    chunksize: usize,
    overlap: usize,
    policy: OverlapPolicy,
    run: Run<T>,
) -> bool {
    &&& run.streams.len() == run.len()
    &&& run.stops.len() == run.len()
    &&& run.len() <= chunk_count(total_secs as nat, chunksize as nat)
    &&& forall|j: int|
        0 <= j < run.len() ==> #[trigger] step_taken(
            generate,
            blend,
            on_progress,
            prompt,
            total_secs,
            chunksize,
            overlap,
            policy,
            run,
            j,
        )
}

/// `run` is a run of the scheduler that ends in `result`. A stream is the
/// result if it is the final stream of the run and the run served every
/// call of the schedule, or the observer asked to stop after its last
/// chunk. A generator failure is the result if the run was cut short by it:
/// the failed call is the one that the schedule gives next, made after the
/// observer let the run go on.
pub open spec fn explains<
    T,
    E,
    G: Fn(&str, usize, Option<&[T]>) -> Result<VecDeque<T>, E>,
    B: Fn(T, T, usize, usize) -> T,
    P: Fn(usize, usize) -> bool,
>(
    generate: G,
    blend: B,
    on_progress: P,
    prompt: &str,
    total_secs: usize,
    chunksize: usize,
    overlap: usize,
    policy: OverlapPolicy,
    run: Run<T>,
    result: Result<VecDeque<T>, ProcessError<E>>,
) -> bool {
    &&& run_taken(generate, blend, on_progress, prompt, total_secs, chunksize, overlap, policy, run)
    &&& match result {
        Ok(stream) => {
            &&& run.len() == chunk_count(total_secs as nat, chunksize as nat) || run.stopped()
            &&& stream@ == run.final_stream()
        },
        Err(ProcessError::Generation(e)) => {
            &&& run.len() < chunk_count(total_secs as nat, chunksize as nat)
            &&& !run.stopped()
            &&& asked(
                generate,
                prompt,
                chunk_secs(total_secs as nat, chunksize as nat, run.len()) as usize,
                run.context_before(window_samples(overlap as nat), run.len() as int),
                Err::<VecDeque<T>, E>(e),
            )
        },
        Err(ProcessError::Configuration(_)) => false,
    }
}

/// What a chunked generation may return. An invalid request is refused
/// with the verdict of the validation, and nothing else is. Every other
/// result has a run of the scheduler behind it that explains it.
pub open spec fn outcome<
    T,
    E,
    G: Fn(&str, usize, Option<&[T]>) -> Result<VecDeque<T>, E>,
    B: Fn(T, T, usize, usize) -> T,
    P: Fn(usize, usize) -> bool,
>(
    generate: G,
    blend: B,
    on_progress: P,
    prompt: &str,
    total_secs: usize,
    chunksize: usize,
    overlap: usize,
    policy: OverlapPolicy,
    result: Result<VecDeque<T>, ProcessError<E>>,
) -> bool {
    match result {
        Err(ProcessError::Configuration(e)) => chunking_verdict(chunksize, overlap) == Err::<
            (),
            ConfigError,
        >(e),
        _ => {
            &&& chunking_verdict(chunksize, overlap) is Ok
            &&& exists|run: Run<T>| #[trigger]
                explains(
                    generate,
                    blend,
                    on_progress,
                    prompt,
                    total_secs,
                    chunksize,
                    overlap,
                    policy,
                    run,
                    result,
                )
        },
    }
}

/// Generates audio with a segment generator that is shared with whoever
/// else holds the handle.
pub struct MusicGenJobProcessor<G> {
    model: Arc<G>,
}

impl<G> MusicGenJobProcessor<G> {
    /// The segment generator behind the handle.
    pub closed spec fn generator(&self) -> G {
        *self.model
    }

    /// Wraps a shared handle to the segment generator.
    pub fn new(model: Arc<G>) -> (processor: Self)
        ensures
            processor.generator() == *model,
    {
        MusicGenJobProcessor { model }
    }

    /// Generates `secs` seconds in a single generator call, without any
    /// continuity context, and reports completion to the observer, whose
    /// answer is ignored. A generator failure is returned as it is, and the
    /// observer is not called.
    pub fn process<T, E, P>(&self, prompt: &str, secs: usize, on_progress: P) -> (result: Result<VecDeque<T>, E>)
        where
            G: Fn(&str, usize, Option<&[T]>) -> Result<VecDeque<T>, E>,
            P: Fn(usize, usize) -> bool,
        requires
            call_requires(self.generator(), (prompt, secs, None::<&[T]>)),
            call_requires(on_progress, (secs, secs)),
        ensures
            call_ensures(self.generator(), (prompt, secs, None::<&[T]>), result),
            result is Ok ==> exists|answer: bool| call_ensures(on_progress, (secs, secs), answer),
    {
        assert(self.generator() == *self.model);
        let result = (*self.model)(prompt, secs, None);
        if result.is_ok() {
            let _ = on_progress(secs, secs);
        }
        result
    }

    /// Generates `total_secs` seconds chunk by chunk and joins the chunks
    /// under `policy`. Each call asks for a full chunk, or for what remains
    /// if that is less, and is seeded with the tail of the previous chunk
    /// as the generator returned it. After each chunk the observer is told
    /// the elapsed and the total seconds; when it answers `true` the stream
    /// composed so far is the result. A failed generator call ends the run
    /// with that failure.
    pub fn process_chunked<T: Copy, E, B, P>(
        &self,
        prompt: &str,
        total_secs: usize,
        chunksize: usize,
        overlap: usize,
        policy: OverlapPolicy,
        blend: B,
        on_progress: P,
    ) -> (result: Result<VecDeque<T>, ProcessError<E>>)
        where
            G: Fn(&str, usize, Option<&[T]>) -> Result<VecDeque<T>, E>,
            B: Fn(T, T, usize, usize) -> T,
            P: Fn(usize, usize) -> bool,
        requires
            generator_callable(self.generator(), prompt, chunksize),
            blend_callable(blend),
            observer_callable(on_progress, total_secs),
        ensures
            result matches Err(ProcessError::Configuration(_)) <==> !chunking_valid(
                chunksize as nat,
                overlap as nat,
            ),
            outcome(
                self.generator(),
                blend,
                on_progress,
                prompt,
                total_secs,
                chunksize,
                overlap,
                policy,
                result,
            ),
    {
        assert(self.generator() == *self.model);
        let begun = ChunkedGeneration::<T>::begin(total_secs, chunksize, overlap, policy);
        let mut generation = match begun {
            Err(e) => {
                return Err(ProcessError::Configuration(e));
            },
            Ok(generation) => generation,
        };
        let ghost window = window_samples(overlap as nat);
        let ghost mut run: Run<T> = Run { chunks: Seq::empty(), streams: Seq::empty(), stops: Seq::empty() };
        loop
            invariant
                generator_callable(*self.model, prompt, chunksize),
                blend_callable(blend),
                observer_callable(on_progress, total_secs),
                chunking_verdict(chunksize, overlap) is Ok,
                window == window_samples(overlap as nat),
                generation.wf(),
                generation@.total_secs == total_secs,
                generation@.chunksize == chunksize,
                generation@.overlap == overlap,
                generation@.policy == policy,
                generation@.chunks == run.len(),
                generation@.stream == run.final_stream(),
                generation@.continuity == run.context_before(window, run.len() as int),
                generation@.stopped == run.stopped(),
                run_taken(*self.model, blend, on_progress, prompt, total_secs, chunksize, overlap, policy, run),
            ensures
                generation@.done(),
            decreases chunk_count(total_secs as nat, chunksize as nat) - generation@.chunks,
        {
            let request = generation.next_request();
            if request.is_none() {
                break;
            }
            let secs: usize = request.unwrap();
            let context = generation.continuity();
            let answer = (*self.model)(prompt, secs, context);
            match answer {
                Err(e) => {
                    proof {
                        assert(asked(
                            *self.model,
                            prompt,
                            secs,
                            run.context_before(window, run.len() as int),
                            Err::<VecDeque<T>, E>(e),
                        ));
                        assert(explains(
                            *self.model,
                            blend,
                            on_progress,
                            prompt,
                            total_secs,
                            chunksize,
                            overlap,
                            policy,
                            run,
                            Err::<VecDeque<T>, ProcessError<E>>(ProcessError::Generation(e)),
                        ));
                    }
                    return Err(ProcessError::Generation(e));
                },
                Ok(chunk) => {
                    proof {
                        assert(asked(
                            *self.model,
                            prompt,
                            secs,
                            run.context_before(window, run.len() as int),
                            Ok::<VecDeque<T>, E>(chunk),
                        ));
                    }
                    let ghost before = run;
                    generation.accept(&chunk, &blend);
                    let elapsed: usize = generation.elapsed();
                    let stop: bool = on_progress(elapsed, total_secs);
                    generation.report(stop);
                    proof {
                        run = Run {
                            chunks: before.chunks.push(chunk),
                            streams: before.streams.push(generation@.stream),
                            stops: before.stops.push(stop),
                        };
                        assert forall|j: int| 0 <= j < run.len() implies #[trigger] step_taken(
                            *self.model,
                            blend,
                            on_progress,
                            prompt,
                            total_secs,
                            chunksize,
                            overlap,
                            policy,
                            run,
                            j,
                        ) by {
                            if j < before.len() {
                                assert(step_taken(
                                    *self.model,
                                    blend,
                                    on_progress,
                                    prompt,
                                    total_secs,
                                    chunksize,
                                    overlap,
                                    policy,
                                    before,
                                    j,
                                ));
                            }
                        }
                    }
                },
            }
        }
        let stream = generation.into_stream();
        proof {
            assert(explains(
                *self.model,
                blend,
                on_progress,
                prompt,
                total_secs,
                chunksize,
                overlap,
                policy,
                run,
                Ok::<VecDeque<T>, ProcessError<E>>(stream),
            ));
        }
        Ok(stream)
    }

    /// Generates `total_secs` seconds chunk by chunk and cross-fades each
    /// chunk into the end of the stream composed so far. `blend` makes the
    /// blended sample of an outgoing sample, an incoming sample, the ramp
    /// position and the ramp length.
    pub fn process_infinite<T: Copy, E, B, P>(
        &self,
        prompt: &str,
        total_secs: usize,
        chunksize: usize,
        overlap: usize,
        blend: B,
        on_progress: P,
    ) -> (result: Result<VecDeque<T>, ProcessError<E>>)
        where
            G: Fn(&str, usize, Option<&[T]>) -> Result<VecDeque<T>, E>,
            B: Fn(T, T, usize, usize) -> T,
            P: Fn(usize, usize) -> bool,
        requires
            generator_callable(self.generator(), prompt, chunksize),
            blend_callable(blend),
            observer_callable(on_progress, total_secs),
        ensures
            result matches Err(ProcessError::Configuration(_)) <==> !chunking_valid(
                chunksize as nat,
                overlap as nat,
            ),
            outcome(
                self.generator(),
                blend,
                on_progress,
                prompt,
                total_secs,
                chunksize,
                overlap,
                OverlapPolicy::CrossFade,
                result,
            ),
    {
        self.process_chunked(prompt, total_secs, chunksize, overlap, OverlapPolicy::CrossFade, blend, on_progress)
    }
}

/// Two continuity contexts hold the same samples.
pub open spec fn same_context<T>(one: Option<&[T]>, other: Option<&[T]>) -> bool {
    match (one, other) {
        (None, None) => true,
        (Some(a), Some(b)) => a@ == b@,
        _ => false,
    }
}

/// Two generator answers are the same chunk, sample for sample, or the same
/// failure.
pub open spec fn same_answer<T, E>(one: Result<VecDeque<T>, E>, other: Result<VecDeque<T>, E>) -> bool {
    match (one, other) {
        (Ok(a), Ok(b)) => a@ == b@,
        (Err(a), Err(b)) => a == b,
        _ => false,
    }
}

/// Two results of a chunked generation are the same stream, sample for
/// sample, or the same refusal or failure.
pub open spec fn same_outcome<T, E>(
    one: Result<VecDeque<T>, ProcessError<E>>,
    other: Result<VecDeque<T>, ProcessError<E>>,
) -> bool {
    match (one, other) {
        (Ok(a), Ok(b)) => a@ == b@,
        (Err(ProcessError::Configuration(a)), Err(ProcessError::Configuration(b))) => a == b,
        (Err(ProcessError::Generation(a)), Err(ProcessError::Generation(b))) => a == b,
        _ => false,
    }
}

/// The generator answers the same question in the same way every time.
pub open spec fn generator_deterministic<T, E, G: Fn(&str, usize, Option<&[T]>) -> Result<VecDeque<T>, E>>(
    generate: G,
    prompt: &str,
) -> bool {
    forall|
        secs: usize,
        c1: Option<&[T]>,
        c2: Option<&[T]>,
        a1: Result<VecDeque<T>, E>,
        a2: Result<VecDeque<T>, E>,
    |
        same_context(c1, c2) && #[trigger] call_ensures(generate, (prompt, secs, c1), a1)
            && #[trigger] call_ensures(generate, (prompt, secs, c2), a2) ==> same_answer(a1, a2)
}

/// The observer answers the same report in the same way every time.
pub open spec fn observer_deterministic<P: Fn(usize, usize) -> bool>(on_progress: P) -> bool {
    forall|elapsed: usize, total: usize, r1: bool, r2: bool|
        #[trigger] call_ensures(on_progress, (elapsed, total), r1) && #[trigger] call_ensures(
            on_progress,
            (elapsed, total),
            r2,
        ) ==> r1 == r2
}

/// A deterministic generator gives one answer to one request.
pub proof fn lemma_answers_agree<T, E, G: Fn(&str, usize, Option<&[T]>) -> Result<VecDeque<T>, E>>(
    generate: G,
    prompt: &str,
    secs: usize,
    context: Option<Seq<T>>,
    one: Result<VecDeque<T>, E>,
    other: Result<VecDeque<T>, E>,
)
    requires
        generator_deterministic(generate, prompt),
        asked(generate, prompt, secs, context, one),
        asked(generate, prompt, secs, context, other),
    ensures
        same_answer(one, other),
{
    match context {
        None => {
            assert(same_context(None::<&[T]>, None::<&[T]>));
        },
        Some(tail) => {
            let h1 = choose|history: &[T]|
                history@ == tail && #[trigger] call_ensures(generate, (prompt, secs, Some(history)), one);
            let h2 = choose|history: &[T]|
                history@ == tail && #[trigger] call_ensures(
                    generate,
                    (prompt, secs, Some(history)),
                    other,
                );
            assert(same_context(Some(h1), Some(h2)));
        },
    }
}

/// Two runs of one request with deterministic collaborators agree on every
/// step that both of them took.
pub proof fn lemma_runs_agree<
    T,
    E,
    G: Fn(&str, usize, Option<&[T]>) -> Result<VecDeque<T>, E>,
    B: Fn(T, T, usize, usize) -> T,
    P: Fn(usize, usize) -> bool,
>(
    generate: G,
    blend: B,
    on_progress: P,
    prompt: &str,
    total_secs: usize,
    chunksize: usize,
    overlap: usize,
    policy: OverlapPolicy,
    one: Run<T>,
    other: Run<T>,
    j: int,
)
    requires
        generator_deterministic(generate, prompt),
        blend_deterministic(blend),
        observer_deterministic(on_progress),
        run_taken(generate, blend, on_progress, prompt, total_secs, chunksize, overlap, policy, one),
        run_taken(generate, blend, on_progress, prompt, total_secs, chunksize, overlap, policy, other),
        0 <= j < one.len(),
        j < other.len(),
    ensures
        one.chunks[j]@ == other.chunks[j]@,
        one.streams[j] == other.streams[j],
        one.stops[j] == other.stops[j],
    decreases j,
{
    let window = window_samples(overlap as nat);
    if j > 0 {
        lemma_runs_agree(
            generate,
            blend,
            on_progress,
            prompt,
            total_secs,
            chunksize,
            overlap,
            policy,
            one,
            other,
            j - 1,
        );
    }
    assert(step_taken(generate, blend, on_progress, prompt, total_secs, chunksize, overlap, policy, one, j));
    assert(step_taken(
        generate,
        blend,
        on_progress,
        prompt,
        total_secs,
        chunksize,
        overlap,
        policy,
        other,
        j,
    ));
    assert(one.context_before(window, j) == other.context_before(window, j));
    assert(one.stream_before(j) == other.stream_before(j));
    lemma_answers_agree(
        generate,
        prompt,
        chunk_secs(total_secs as nat, chunksize as nat, j as nat) as usize,
        one.context_before(window, j),
        Ok::<VecDeque<T>, E>(one.chunks[j]),
        Ok::<VecDeque<T>, E>(other.chunks[j]),
    );
    lemma_composition_is_unique(
        policy,
        blend,
        window,
        j as nat,
        one.stream_before(j),
        one.chunks[j]@,
        one.streams[j],
        other.streams[j],
    );
}

/// Of two runs of one request with deterministic collaborators, each
/// explaining a result, the first is not the shorter one.
proof fn lemma_not_shorter<
    T,
    E,
    G: Fn(&str, usize, Option<&[T]>) -> Result<VecDeque<T>, E>,
    B: Fn(T, T, usize, usize) -> T,
    P: Fn(usize, usize) -> bool,
>(
    generate: G,
    blend: B,
    on_progress: P,
    prompt: &str,
    total_secs: usize,
    chunksize: usize,
    overlap: usize,
    policy: OverlapPolicy,
    one: Run<T>,
    first: Result<VecDeque<T>, ProcessError<E>>,
    other: Run<T>,
    second: Result<VecDeque<T>, ProcessError<E>>,
)
    requires
        generator_deterministic(generate, prompt),
        blend_deterministic(blend),
        observer_deterministic(on_progress),
        explains(generate, blend, on_progress, prompt, total_secs, chunksize, overlap, policy, one, first),
        explains(
            generate,
            blend,
            on_progress,
            prompt,
            total_secs,
            chunksize,
            overlap,
            policy,
            other,
            second,
        ),
    ensures
        one.len() >= other.len(),
{
    let window = window_samples(overlap as nat);
    let k = one.len() as int;
    if k < other.len() {
        if k >= 1 {
            lemma_runs_agree(
                generate,
                blend,
                on_progress,
                prompt,
                total_secs,
                chunksize,
                overlap,
                policy,
                one,
                other,
                k - 1,
            );
            assert(step_taken(
                generate,
                blend,
                on_progress,
                prompt,
                total_secs,
                chunksize,
                overlap,
                policy,
                other,
                k - 1,
            ));
        }
        assert(step_taken(
            generate,
            blend,
            on_progress,
            prompt,
            total_secs,
            chunksize,
            overlap,
            policy,
            other,
            k,
        ));
        match first {
            Ok(_) => {
                assert(one.stopped());
            },
            Err(ProcessError::Generation(e)) => {
                assert(one.context_before(window, k) == other.context_before(window, k));
                lemma_answers_agree(
                    generate,
                    prompt,
                    chunk_secs(total_secs as nat, chunksize as nat, k as nat) as usize,
                    one.context_before(window, k),
                    Err::<VecDeque<T>, E>(e),
                    Ok::<VecDeque<T>, E>(other.chunks[k]),
                );
            },
            Err(ProcessError::Configuration(_)) => {},
        }
    }
}

/// Running one request twice with collaborators that answer the same
/// question in the same way every time gives the same result twice: the
/// same stream, sample for sample, or the same refusal or failure.
pub proof fn lemma_rerun_is_identical<
    T,
    E,
    G: Fn(&str, usize, Option<&[T]>) -> Result<VecDeque<T>, E>,
    B: Fn(T, T, usize, usize) -> T,
    P: Fn(usize, usize) -> bool,
>(
    generate: G,
    blend: B,
    on_progress: P,
    prompt: &str,
    total_secs: usize,
    chunksize: usize,
    overlap: usize,
    policy: OverlapPolicy,
    first: Result<VecDeque<T>, ProcessError<E>>,
    second: Result<VecDeque<T>, ProcessError<E>>,
)
    requires
        generator_deterministic(generate, prompt),
        blend_deterministic(blend),
        observer_deterministic(on_progress),
        outcome(generate, blend, on_progress, prompt, total_secs, chunksize, overlap, policy, first),
        outcome(generate, blend, on_progress, prompt, total_secs, chunksize, overlap, policy, second),
    ensures
        same_outcome(first, second),
{
    if chunking_verdict(chunksize, overlap) is Ok {
        let window = window_samples(overlap as nat);
        let one = choose|run: Run<T>| #[trigger]
            explains(generate, blend, on_progress, prompt, total_secs, chunksize, overlap, policy, run, first);
        let other = choose|run: Run<T>| #[trigger]
            explains(
                generate,
                blend,
                on_progress,
                prompt,
                total_secs,
                chunksize,
                overlap,
                policy,
                run,
                second,
            );
        lemma_not_shorter(
            generate,
            blend,
            on_progress,
            prompt,
            total_secs,
            chunksize,
            overlap,
            policy,
            one,
            first,
            other,
            second,
        );
        lemma_not_shorter(
            generate,
            blend,
            on_progress,
            prompt,
            total_secs,
            chunksize,
            overlap,
            policy,
            other,
            second,
            one,
            first,
        );
        let k = one.len() as int;
        if k >= 1 {
            lemma_runs_agree(
                generate,
                blend,
                on_progress,
                prompt,
                total_secs,
                chunksize,
                overlap,
                policy,
                one,
                other,
                k - 1,
            );
        }
        assert(one.final_stream() == other.final_stream());
        assert(one.stopped() == other.stopped());
        assert(one.context_before(window, k) == other.context_before(window, k));
        match (first, second) {
            (Err(ProcessError::Generation(e1)), Err(ProcessError::Generation(e2))) => {
                lemma_answers_agree(
                    generate,
                    prompt,
                    chunk_secs(total_secs as nat, chunksize as nat, k as nat) as usize,
                    one.context_before(window, k),
                    Err::<VecDeque<T>, E>(e1),
                    Err::<VecDeque<T>, E>(e2),
                );
            },
            _ => {},
        }
    }
}

/// Once the observer has asked to stop, the run is over: the chunk that it
/// answered is the last one of the run, no further generator call belongs
/// to the run, and the result is the stream as it stood after that chunk.
pub proof fn lemma_stop_ends_run<
    T,
    E,
    G: Fn(&str, usize, Option<&[T]>) -> Result<VecDeque<T>, E>,
    B: Fn(T, T, usize, usize) -> T,
    P: Fn(usize, usize) -> bool,
>(
    generate: G,
    blend: B,
    on_progress: P,
    prompt: &str,
    total_secs: usize,
    chunksize: usize,
    overlap: usize,
    policy: OverlapPolicy,
    run: Run<T>,
    result: Result<VecDeque<T>, ProcessError<E>>,
    k: int,
)
    requires
        explains(generate, blend, on_progress, prompt, total_secs, chunksize, overlap, policy, run, result),
        0 <= k < run.len(),
        run.stops[k],
    ensures
        run.len() == k + 1,
        result is Ok,
        result->Ok_0@ == run.streams[k],
{
    assert(step_taken(generate, blend, on_progress, prompt, total_secs, chunksize, overlap, policy, run, k));
}

/// A run that the observer never stops and in which no call fails serves
/// the whole schedule: it makes as many generator calls as the ceiling of
/// `total / chunk`, call `j` is asked for the duration that the schedule
/// gives it, and the durations add up to the total.
pub proof fn lemma_full_run_covers_total<
    T,
    E,
    G: Fn(&str, usize, Option<&[T]>) -> Result<VecDeque<T>, E>,
    B: Fn(T, T, usize, usize) -> T,
    P: Fn(usize, usize) -> bool,
>(
    generate: G,
    blend: B,
    on_progress: P,
    prompt: &str,
    total_secs: usize,
    chunksize: usize,
    overlap: usize,
    policy: OverlapPolicy,
    run: Run<T>,
    result: Result<VecDeque<T>, ProcessError<E>>,
)
    requires
        chunking_verdict(chunksize, overlap) is Ok,
        explains(generate, blend, on_progress, prompt, total_secs, chunksize, overlap, policy, run, result),
        result is Ok,
        !run.stopped(),
    ensures
        run.len() == chunk_count(total_secs as nat, chunksize as nat),
        run.len() == durations(total_secs as nat, chunksize as nat).len(),
        sum(durations(total_secs as nat, chunksize as nat)) == total_secs,
        forall|j: int|
            0 <= j < run.len() ==> asked(
                generate,
                prompt,
                #[trigger] durations(total_secs as nat, chunksize as nat)[j] as usize,
                run.context_before(window_samples(overlap as nat), j),
                Ok::<VecDeque<T>, E>(run.chunks[j]),
            ),
{
    lemma_schedule_covers_total(total_secs as nat, chunksize as nat);
    assert forall|j: int| 0 <= j < run.len() implies asked(
        generate,
        prompt,
        #[trigger] durations(total_secs as nat, chunksize as nat)[j] as usize,
        run.context_before(window_samples(overlap as nat), j),
        Ok::<VecDeque<T>, E>(run.chunks[j]),
    ) by {
        assert(step_taken(
            generate,
            blend,
            on_progress,
            prompt,
            total_secs,
            chunksize,
            overlap,
            policy,
            run,
            j,
        ));
    }
}

/// A request is refused exactly when its chunk is longer than one generator
/// call can produce or its overlap is not strictly smaller than its chunk.
/// The refusal carries the verdict of the validation, and no run of the
/// scheduler stands behind it.
pub proof fn lemma_invalid_request_is_refused<
    T,
    E,
    G: Fn(&str, usize, Option<&[T]>) -> Result<VecDeque<T>, E>,
    B: Fn(T, T, usize, usize) -> T,
    P: Fn(usize, usize) -> bool,
>(
    generate: G,
    blend: B,
    on_progress: P,
    prompt: &str,
    total_secs: usize,
    chunksize: usize,
    overlap: usize,
    policy: OverlapPolicy,
    result: Result<VecDeque<T>, ProcessError<E>>,
)
    requires
        outcome(generate, blend, on_progress, prompt, total_secs, chunksize, overlap, policy, result),
    ensures
        !chunking_valid(chunksize as nat, overlap as nat) <==> result matches Err(
            ProcessError::Configuration(_),
        ),
        result matches Err(ProcessError::Configuration(e)) ==> chunking_verdict(chunksize, overlap)
            == Err::<(), ConfigError>(e),
        forall|run: Run<T>|
            result matches Err(ProcessError::Configuration(_)) ==> !#[trigger] explains(
                generate,
                blend,
                on_progress,
                prompt,
                total_secs,
                chunksize,
                overlap,
                policy,
                run,
                result,
            ),
{
}

} // verus!
