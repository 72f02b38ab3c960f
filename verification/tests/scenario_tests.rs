use conc_map_bench::scenarios::{
    default_thread_counts, default_thread_counts_for_host, validate_thread_counts, zip_scenarios,
    Scenario,
};
use conc_map_bench::ConfigError;

#[test]
fn zip_truncates_to_shorter_list() {
    let reads = vec![1u32, 2, 3];
    let writes = vec![1u32, 2];
    let scenarios = zip_scenarios(&reads, &writes);
    assert_eq!(
        scenarios,
        vec![
            Scenario { read_threads: 1, write_threads: 1 },
            Scenario { read_threads: 2, write_threads: 2 },
        ]
    );
}

#[test]
fn zip_pairs_by_index() {
    let reads = vec![4u32, 8];
    let writes = vec![1u32, 2, 3];
    let scenarios = zip_scenarios(&reads, &writes);
    assert_eq!(
        scenarios,
        vec![
            Scenario { read_threads: 4, write_threads: 1 },
            Scenario { read_threads: 8, write_threads: 2 },
        ]
    );
}

#[test]
fn zip_of_empty_list_is_empty() {
    let reads: Vec<u32> = vec![];
    let writes = vec![1u32, 2];
    assert_eq!(zip_scenarios(&reads, &writes), vec![]);
}

#[test]
fn default_counts_for_parallelism_8() {
    // floor(8 * 3 / 2 / 2) = 6 is an exclusive bound: 1 through 5.
    assert_eq!(default_thread_counts(8), vec![1u32, 2, 3, 4, 5]);
}

#[test]
fn default_counts_small_hosts_yield_empty_sequences() {
    assert_eq!(default_thread_counts(0), vec![]);
    assert_eq!(default_thread_counts(1), vec![]);
    // floor(2 * 3 / 2 / 2) = 1, exclusive: still empty.
    assert_eq!(default_thread_counts(2), vec![]);
    // floor(3 * 3 / 2 / 2) = 2, exclusive: just 1.
    assert_eq!(default_thread_counts(3), vec![1u32]);
}

#[test]
fn default_counts_for_host_ascend_from_one() {
    let counts = default_thread_counts_for_host();
    for (i, c) in counts.iter().enumerate() {
        assert_eq!(*c as usize, i + 1);
    }
}

#[test]
fn validate_accepts_positive_counts() {
    assert_eq!(validate_thread_counts(&vec![1u32, 2, 3]), Ok(()));
    assert_eq!(validate_thread_counts(&vec![]), Ok(()));
}

#[test]
fn validate_rejects_zero_counts() {
    assert_eq!(
        validate_thread_counts(&vec![1u32, 0, 3]),
        Err(ConfigError::NonPositiveThreadCount)
    );
}
