//! Scenario enumeration: the ordered sequence of (read-threads,
//! write-threads) pairs a sweep evaluates.

use vstd::prelude::*;
use crate::ConfigError;

verus! {

/// One benchmark scenario: a read-thread count paired with a write-thread
/// count, both positive.
#[derive(Clone, Copy, Debug, PartialEq, Eq, Structural)]
pub struct Scenario {
    pub read_threads: u32,
    pub write_threads: u32,
}

/// The exclusive upper bound of the default thread-count sequence derived
/// from host parallelism `p`: floor(p * 3 / 2 / 2), which equals
/// floor(3 * p / 4).
pub open spec fn spec_default_bound(p: usize) -> int {
    (3 * p) / 4
}

/// The default thread-count sequence for host parallelism `p`:
/// 1, 2, ..., floor(p * 3 / 2 / 2) - 1 (the bound is exclusive).
pub open spec fn spec_default_counts(p: usize) -> Seq<u32> {
    Seq::new(
        if spec_default_bound(p) >= 1 {
            (spec_default_bound(p) - 1) as nat
        } else {
            0
        },
        |i: int| (i + 1) as u32,
    )
}

/// The index-aligned pairing of a read-thread list with a write-thread list;
/// the longer list's tail is ignored.
pub open spec fn spec_zip(reads: Seq<u32>, writes: Seq<u32>) -> Seq<Scenario> {
    Seq::new(
        if reads.len() <= writes.len() {
            reads.len()
        } else {
            writes.len()
        },
        |i: int| (Scenario { read_threads: reads[i], write_threads: writes[i] }),
    )
}

/// Derives the default ascending thread-count sequence 1, 2, ...,
/// floor(p * 3 / 2 / 2) - 1 from host parallelism `p`. When the bound is at
/// most 1 the sequence is empty and the sweep runs zero scenarios.
pub fn default_thread_counts(p: usize) -> (r: Vec<u32>)
    requires
        p <= u32::MAX,
    ensures
        r@ == spec_default_counts(p),
{
    // floor(3p/4) computed as p - ceil(p/4) to avoid overflow in 3 * p.
    let quarter_up = p / 4 + (if p % 4 != 0 { 1 } else { 0 });
    let bound = p - quarter_up;
    proof {
        assert(bound == spec_default_bound(p)) by {
            assert(p - (p / 4 + (if p % 4 != 0 { 1int } else { 0 })) == (3 * p) / 4) by (nonlinear_arith);
        }
    }
    let mut r: Vec<u32> = Vec::new();
    let mut next: usize = 1;
    while next < bound
        invariant
            1 <= next,
            bound <= p <= u32::MAX,
            bound == spec_default_bound(p),
            next <= bound || (next == 1 && bound <= 1),
            r@.len() == next - 1,
            forall|i: int| 0 <= i < r@.len() ==> r@[i] == i + 1,
        decreases bound - next,
    {
        r.push(next as u32);
        next = next + 1;
    }
    proof {
        assert(r@ =~= spec_default_counts(p));
    }
    r
}

/// Relies on num_cpus::get: the number of logical CPUs available to this
/// process; its documentation promises a result of at least 1.
#[verifier::external_body]
fn host_parallelism() -> (p: usize)
    ensures
        1 <= p,
{
    num_cpus::get()
}

/// Derives the default thread-count sequence from this host's parallelism,
/// read once at the call. The sequence always counts up from 1 in steps of
/// one; which bound the host yields cannot be known ahead of the call.
pub fn default_thread_counts_for_host() -> (r: Vec<u32>)
    ensures
        exists|p: usize| 1 <= p <= u32::MAX && r@ == spec_default_counts(p),
        forall|i: int| 0 <= i < r@.len() ==> r@[i] == i + 1,
{
    let mut p = host_parallelism();
    if p > u32::MAX as usize {
        p = u32::MAX as usize;
    }
    let r = default_thread_counts(p);
    proof {
        assert(1 <= p <= u32::MAX && r@ == spec_default_counts(p));
    }
    r
}

/// Checks an explicit thread-count list: every entry must be a positive
/// integer, else the configuration is rejected before any scenario executes.
pub fn validate_thread_counts(counts: &Vec<u32>) -> (r: Result<(), ConfigError>)
    ensures
        r is Ok <==> (forall|i: int| 0 <= i < counts@.len() ==> counts@[i] > 0),
        r is Err ==> r == Err::<(), ConfigError>(ConfigError::NonPositiveThreadCount),
{
    let mut idx: usize = 0;
    while idx < counts.len()
        invariant
            idx <= counts@.len(),
            forall|i: int| 0 <= i < idx ==> counts@[i] > 0,
        decreases counts@.len() - idx,
    {
        if counts[idx] == 0 {
            return Err(ConfigError::NonPositiveThreadCount);
        }
        idx = idx + 1;
    }
    Ok(())
}

/// Pairs the read-thread list with the write-thread list index by index to
/// form the scenario sequence; the tail of the longer list is ignored.
pub fn zip_scenarios(reads: &Vec<u32>, writes: &Vec<u32>) -> (r: Vec<Scenario>)
    ensures
        r@ == spec_zip(reads@, writes@),
{
    let n = if reads.len() <= writes.len() {
        reads.len()
    } else {
        writes.len()
    };
    let mut r: Vec<Scenario> = Vec::new();
    let mut idx: usize = 0;
    while idx < n
        invariant
            idx <= n,
            n <= reads@.len(),
            n <= writes@.len(),
            n == spec_zip(reads@, writes@).len(),
            r@.len() == idx,
            forall|i: int| 0 <= i < idx ==> r@[i] == spec_zip(reads@, writes@)[i],
        decreases n - idx,
    {
        r.push(Scenario { read_threads: reads[idx], write_threads: writes[idx] });
        idx = idx + 1;
    }
    proof {
        assert(r@ =~= spec_zip(reads@, writes@));
    }
    r
}

/// Law: the scenario sequence is exactly as long as the shorter of the two
/// lists, and each scenario takes its read count and its write count from
/// the same index of the respective list.
pub proof fn lemma_zip_truncates(reads: Seq<u32>, writes: Seq<u32>)
    ensures
        spec_zip(reads, writes).len() == vstd::math::min(reads.len() as int, writes.len() as int),
        forall|i: int|
            0 <= i < spec_zip(reads, writes).len() ==> spec_zip(reads, writes)[i]
                == (Scenario { read_threads: reads[i], write_threads: writes[i] }),
{
}

} // verus!
