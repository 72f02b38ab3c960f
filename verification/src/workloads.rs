//! Workload mix generation: maps a workload kind to the operation mix and
//! fill parameters that describe one benchmark workload.

use vstd::prelude::*;
use crate::ConfigError;

verus! {

/// The kind of workload to benchmark, selected once per run.
#[derive(Clone, Copy, Debug, PartialEq, Eq, Structural)]
pub enum WorkloadKind {
    ReadHeavy,
    Exchange,
    RapidGrow,
}

/// Relative frequencies of the five map operations. The weights need not sum
/// to 100 in general, but every mix this crate generates does.
#[derive(Clone, Copy, Debug, PartialEq, Eq, Structural)]
pub struct Mix {
    pub read: u32,
    pub insert: u32,
    pub remove: u32,
    pub update: u32,
    pub upsert: u32,
}

/// A fully specified workload descriptor for one scenario: the operation
/// mix, the thread assignment, and the fill parameters. The prefill fraction
/// is held in hundredths, so `prefill_percent == 80` means a fraction of 0.8.
/// The caller attaches its total-operations multiplier before execution.
#[derive(Clone, Copy, Debug, PartialEq, Eq, Structural)]
pub struct Workload {
    pub mix: Mix,
    pub read_threads: u32,
    pub write_threads: u32,
    pub initial_capacity_log2: u8,
    pub prefill_percent: u8,
}

/// The operation mix of each workload kind.
pub open spec fn spec_mix(kind: WorkloadKind) -> Mix {
    match kind {
        WorkloadKind::ReadHeavy => (Mix { read: 98, insert: 1, remove: 1, update: 0, upsert: 0 }),
        WorkloadKind::Exchange => (Mix { read: 10, insert: 40, remove: 40, update: 10, upsert: 0 }),
        WorkloadKind::RapidGrow => (Mix { read: 5, insert: 80, remove: 5, update: 10, upsert: 0 }),
    }
}

/// The prefill fraction of each workload kind, in hundredths.
pub open spec fn spec_prefill_percent(kind: WorkloadKind) -> u8 {
    match kind {
        WorkloadKind::ReadHeavy => 80,
        WorkloadKind::Exchange => 80,
        WorkloadKind::RapidGrow => 0,
    }
}

/// The full workload descriptor for one scenario of the given kind.
pub open spec fn spec_workload(kind: WorkloadKind, read_threads: u32, write_threads: u32) -> Workload {
    Workload {
        mix: spec_mix(kind),
        read_threads: read_threads,
        write_threads: write_threads,
        initial_capacity_log2: 24,
        prefill_percent: spec_prefill_percent(kind),
    }
}

impl WorkloadKind {
    /// Parses a workload kind from its name; every other string is rejected
    /// with a configuration error.
    pub fn from_str(s: &str) -> (r: Result<WorkloadKind, ConfigError>)
        ensures
            r is Ok <==> (s@ == "ReadHeavy"@ || s@ == "Exchange"@ || s@ == "RapidGrow"@),
            s@ == "ReadHeavy"@ ==> r == Ok::<WorkloadKind, ConfigError>(WorkloadKind::ReadHeavy),
            s@ == "Exchange"@ ==> r == Ok::<WorkloadKind, ConfigError>(WorkloadKind::Exchange),
            s@ == "RapidGrow"@ ==> r == Ok::<WorkloadKind, ConfigError>(WorkloadKind::RapidGrow),
            r is Err ==> r == Err::<WorkloadKind, ConfigError>(ConfigError::UnknownWorkload),
    {
        proof {
            reveal_strlit("ReadHeavy");
            reveal_strlit("Exchange");
            reveal_strlit("RapidGrow");
            assert("ReadHeavy"@.len() == 9);
            assert("Exchange"@.len() == 8);
            assert("RapidGrow"@.len() == 9);
            assert("ReadHeavy"@[1] == 'e');
            assert("RapidGrow"@[1] == 'a');
        }
        let owned = s.to_owned();
        if owned == "ReadHeavy".to_owned() {
            Ok(WorkloadKind::ReadHeavy)
        } else if owned == "Exchange".to_owned() {
            Ok(WorkloadKind::Exchange)
        } else if owned == "RapidGrow".to_owned() {
            Ok(WorkloadKind::RapidGrow)
        } else {
            Err(ConfigError::UnknownWorkload)
        }
    }
}

/// The read-heavy workload: almost all reads, a trickle of churn.
pub fn read_heavy(read_threads: u32, write_threads: u32) -> (w: Workload)
    ensures
        w == spec_workload(WorkloadKind::ReadHeavy, read_threads, write_threads),
{
    let mix = Mix { read: 98, insert: 1, remove: 1, update: 0, upsert: 0 };
    Workload {
        mix,
        read_threads,
        write_threads,
        initial_capacity_log2: 24,
        prefill_percent: 80,
    }
}

/// The exchange workload: heavy insert/remove churn at steady size.
pub fn exchange(read_threads: u32, write_threads: u32) -> (w: Workload)
    ensures
        w == spec_workload(WorkloadKind::Exchange, read_threads, write_threads),
{
    let mix = Mix { read: 10, insert: 40, remove: 40, update: 10, upsert: 0 };
    Workload {
        mix,
        read_threads,
        write_threads,
        initial_capacity_log2: 24,
        prefill_percent: 80,
    }
}

/// The rapid-grow workload: insert-dominated, starting from an empty table.
pub fn rapid_grow(read_threads: u32, write_threads: u32) -> (w: Workload)
    ensures
        w == spec_workload(WorkloadKind::RapidGrow, read_threads, write_threads),
{
    let mix = Mix { read: 5, insert: 80, remove: 5, update: 10, upsert: 0 };
    Workload {
        mix,
        read_threads,
        write_threads,
        initial_capacity_log2: 24,
        prefill_percent: 0,
    }
}

/// Builds the workload descriptor for one scenario of the given kind.
pub fn create(kind: WorkloadKind, read_threads: u32, write_threads: u32) -> (w: Workload)
    ensures
        w == spec_workload(kind, read_threads, write_threads),
{
    match kind {
        WorkloadKind::ReadHeavy => read_heavy(read_threads, write_threads),
        WorkloadKind::Exchange => exchange(read_threads, write_threads),
        WorkloadKind::RapidGrow => rapid_grow(read_threads, write_threads),
    }
}

/// Law: for every workload kind the mix weights sum to exactly 100, the
/// prefill percentage is a valid fraction in [0, 100], and the rapid-grow
/// workload starts from an empty table (prefill exactly 0).
pub proof fn lemma_mix_properties(kind: WorkloadKind)
    ensures
        spec_mix(kind).read + spec_mix(kind).insert + spec_mix(kind).remove + spec_mix(kind).update
            + spec_mix(kind).upsert == 100,
        spec_prefill_percent(kind) <= 100,
        kind == WorkloadKind::RapidGrow ==> spec_prefill_percent(kind) == 0,
{
}

} // verus!
