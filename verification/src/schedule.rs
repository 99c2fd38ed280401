//! The chunk scheduler: how a total duration is split into generator calls.

use vstd::prelude::*;

verus! {

/// Seconds that are covered once `k` chunks have been generated.
pub open spec fn elapsed_after(total: nat, chunk: nat, k: nat) -> nat {
    if k * chunk <= total {
        k * chunk
    } else {
        total
    }
}

/// Duration of the call with index `k`, counting from zero: a full chunk, or
/// what remains of the total if that is less.
pub open spec fn chunk_secs(total: nat, chunk: nat, k: nat) -> nat {
    (elapsed_after(total, chunk, k + 1) - elapsed_after(total, chunk, k)) as nat
}

/// Number of generator calls that serve `total` seconds in chunks of `chunk`.
pub open spec fn chunk_count(total: nat, chunk: nat) -> nat {
    if chunk == 0 {
        0
    } else {
        ((total + chunk - 1) / chunk as int) as nat
    }
}

/// The per-call durations of a request, in order.
pub open spec fn durations(total: nat, chunk: nat) -> Seq<nat> {
    Seq::new(chunk_count(total, chunk), |k: int| chunk_secs(total, chunk, k as nat))
}

/// Sum of a sequence of durations.
pub open spec fn sum(s: Seq<nat>) -> nat
    decreases s.len(),
{
    if s.len() == 0 {
        0
    } else {
        sum(s.drop_last()) + s.last()
    }
}

/// What the next call is asked for when `generated` of `total` seconds exist.
pub open spec fn next_secs(total: nat, chunk: nat, generated: nat) -> nat {
    if generated >= total {
        0
    } else if chunk <= total - generated {
        chunk
    } else {
        (total - generated) as nat
    }
}

/// The chunk count is the ceiling of `total / chunk`: the least number of
/// chunks that cover the total.
pub proof fn lemma_chunk_count_is_ceiling(total: nat, chunk: nat)
    requires
        chunk > 0,
    ensures
        chunk_count(total, chunk) * chunk >= total,
        total > 0 ==> (chunk_count(total, chunk) - 1) * chunk < total,
        total == 0 ==> chunk_count(total, chunk) == 0,
        total % chunk == 0 ==> chunk_count(total, chunk) == total / chunk,
        total % chunk != 0 ==> chunk_count(total, chunk) == total / chunk + 1,
{
    let n = chunk_count(total, chunk) as int;
    let t = total as int;
    let c = chunk as int;
    assert(n * c >= t && (t > 0 ==> (n - 1) * c < t) && (t == 0 ==> n == 0)
        && (t % c == 0 ==> n == t / c) && (t % c != 0 ==> n == t / c + 1)) by (nonlinear_arith)
        requires
            c > 0,
            t >= 0,
            n == (t + c - 1) / c,
    ;
}

/// Before the last chunk the elapsed time is a whole number of chunks; after
/// it, the total.
pub proof fn lemma_elapsed(total: nat, chunk: nat, k: nat)
    requires
        chunk > 0,
    ensures
        k < chunk_count(total, chunk) ==> elapsed_after(total, chunk, k) == k * chunk
            && elapsed_after(total, chunk, k) < total,
        k >= chunk_count(total, chunk) ==> elapsed_after(total, chunk, k) == total,
        elapsed_after(total, chunk, k + 1) == elapsed_after(total, chunk, k) + next_secs(
            total,
            chunk,
            elapsed_after(total, chunk, k),
        ),
        chunk_secs(total, chunk, k) == next_secs(total, chunk, elapsed_after(total, chunk, k)),
{
    lemma_chunk_count_is_ceiling(total, chunk);
    let n = chunk_count(total, chunk) as int;
    let t = total as int;
    let c = chunk as int;
    let kk = k as int;
    assert((kk + 1) * c == kk * c + c) by (nonlinear_arith);
    assert(kk < n ==> kk * c <= (n - 1) * c) by (nonlinear_arith)
        requires
            c > 0,
    ;
    assert(kk >= n ==> kk * c >= n * c) by (nonlinear_arith)
        requires
            c > 0,
    ;
}

/// The durations of the first `k` calls add up to the elapsed time.
pub proof fn lemma_prefix_sum(total: nat, chunk: nat, k: nat)
    requires
        chunk > 0,
        k <= chunk_count(total, chunk),
    ensures
        sum(durations(total, chunk).take(k as int)) == elapsed_after(total, chunk, k),
    decreases k,
{
    let d = durations(total, chunk);
    if k == 0 {
        assert(d.take(0).len() == 0);
        assert(0 * chunk == 0) by (nonlinear_arith);
    } else {
        let j = (k - 1) as nat;
        lemma_prefix_sum(total, chunk, j);
        lemma_elapsed(total, chunk, j);
        assert(d.take(k as int).drop_last() =~= d.take(j as int));
        assert(d.take(k as int).last() == chunk_secs(total, chunk, j));
    }
}

/// The per-call durations add up to the total, there are as many of them as
/// the ceiling of `total / chunk`, and each is a full chunk or, for the last
/// one, what remained.
pub proof fn lemma_schedule_covers_total(total: nat, chunk: nat)
    requires
        chunk > 0,
    ensures
        sum(durations(total, chunk)) == total,
        durations(total, chunk).len() == chunk_count(total, chunk),
        chunk_count(total, chunk) * chunk >= total,
        total > 0 ==> (chunk_count(total, chunk) - 1) * chunk < total,
        forall|k: int|
            0 <= k < chunk_count(total, chunk) ==> 1 <= #[trigger] durations(total, chunk)[k]
                <= chunk,
        forall|k: int|
            0 <= k < chunk_count(total, chunk) - 1 ==> #[trigger] durations(total, chunk)[k]
                == chunk,
{
    let n = chunk_count(total, chunk);
    let d = durations(total, chunk);
    lemma_chunk_count_is_ceiling(total, chunk);
    lemma_prefix_sum(total, chunk, n);
    lemma_elapsed(total, chunk, n);
    assert(d.take(n as int) =~= d);
    assert forall|k: int| 0 <= k < n implies 1 <= #[trigger] d[k] <= chunk by {
        lemma_elapsed(total, chunk, k as nat);
    }
    assert forall|k: int| 0 <= k < n - 1 implies #[trigger] d[k] == chunk by {
        lemma_elapsed(total, chunk, k as nat);
        lemma_elapsed(total, chunk, (k + 1) as nat);
    }
}

/// Splits `total_secs` into the durations of the generator calls that serve
/// it: full chunks of `chunksize` seconds, then the remainder. With a chunk
/// size of zero there is no schedule, and the result is empty.
pub fn plan_chunks(total_secs: usize, chunksize: usize) -> (plan: Vec<usize>)
    ensures
        plan@.len() == chunk_count(total_secs as nat, chunksize as nat),
        forall|k: int|
            0 <= k < plan@.len() ==> #[trigger] plan@[k] == chunk_secs(
                total_secs as nat,
                chunksize as nat,
                k as nat,
            ),
        plan@.map_values(|d: usize| d as nat) == durations(total_secs as nat, chunksize as nat),
{
    let mut plan: Vec<usize> = Vec::new();
    if chunksize == 0 {
        assert(plan@.map_values(|d: usize| d as nat) =~= durations(total_secs as nat, 0));
        return plan;
    }
    let mut generated: usize = 0;
    while generated < total_secs
        invariant
            chunksize > 0,
            generated <= total_secs,
            plan@.len() <= chunk_count(total_secs as nat, chunksize as nat),
            generated == elapsed_after(total_secs as nat, chunksize as nat, plan@.len()),
            forall|k: int|
                0 <= k < plan@.len() ==> #[trigger] plan@[k] == chunk_secs(
                    total_secs as nat,
                    chunksize as nat,
                    k as nat,
                ),
        decreases total_secs - generated,
    {
        let left: usize = total_secs - generated;
        let secs: usize = if chunksize <= left {
            chunksize
        } else {
            left
        };
        proof {
            lemma_elapsed(total_secs as nat, chunksize as nat, plan@.len());
        }
        plan.push(secs);
        generated = generated + secs;
    }
    proof {
        lemma_elapsed(total_secs as nat, chunksize as nat, plan@.len());
        assert(plan@.map_values(|d: usize| d as nat) =~= durations(
            total_secs as nat,
            chunksize as nat,
        ));
    }
    plan
}

} // verus!
