use musicgpt::config::{
    chunking_has_no_effect, overlap_window, validate_chunking, ConfigError, MAX_CHUNK_SECS, SAMPLE_RATE,
};
use musicgpt::schedule::plan_chunks;

#[test]
fn plan_splits_total_into_full_chunks_and_remainder() {
    assert_eq!(plan_chunks(45, 30), vec![30, 15]);
    assert_eq!(plan_chunks(100, 30), vec![30, 30, 30, 10]);
}

#[test]
fn plan_of_exact_multiple_has_only_full_chunks() {
    assert_eq!(plan_chunks(60, 30), vec![30, 30]);
    assert_eq!(plan_chunks(30, 30), vec![30]);
}

#[test]
fn plan_with_chunk_larger_than_total_is_one_call() {
    assert_eq!(plan_chunks(10, 30), vec![10]);
}

#[test]
fn plan_of_nothing_is_empty() {
    assert_eq!(plan_chunks(0, 30), Vec::<usize>::new());
    assert_eq!(plan_chunks(10, 0), Vec::<usize>::new());
}

#[test]
fn plan_sums_to_total_and_counts_the_ceiling() {
    for total in 0..200usize {
        for chunk in 1..=30usize {
            let plan = plan_chunks(total, chunk);
            assert_eq!(plan.iter().sum::<usize>(), total);
            assert_eq!(plan.len(), (total + chunk - 1) / chunk);
            for (k, secs) in plan.iter().enumerate() {
                assert!(*secs >= 1 && *secs <= chunk);
                if k + 1 < plan.len() {
                    assert_eq!(*secs, chunk);
                }
            }
        }
    }
}

#[test]
fn constants_are_the_pipeline_limits() {
    assert_eq!(SAMPLE_RATE, 32000);
    assert_eq!(MAX_CHUNK_SECS, 30);
}

#[test]
fn overlap_window_converts_seconds_to_samples() {
    assert_eq!(overlap_window(0), 0);
    assert_eq!(overlap_window(1), 32000);
    assert_eq!(overlap_window(10), 320000);
    assert_eq!(overlap_window(29), 928000);
}

#[test]
fn validation_accepts_overlap_below_chunk() {
    assert_eq!(validate_chunking(30, 10), Ok(()));
    assert_eq!(validate_chunking(30, 29), Ok(()));
    assert_eq!(validate_chunking(1, 0), Ok(()));
}

#[test]
fn validation_rejects_chunk_above_maximum() {
    assert_eq!(validate_chunking(31, 10), Err(ConfigError::ChunkTooLarge { chunksize: 31 }));
    assert_eq!(validate_chunking(1000, 2000), Err(ConfigError::ChunkTooLarge { chunksize: 1000 }));
}

#[test]
fn validation_rejects_overlap_not_below_chunk() {
    assert_eq!(
        validate_chunking(30, 30),
        Err(ConfigError::OverlapTooLarge { overlap: 30, chunksize: 30 })
    );
    assert_eq!(
        validate_chunking(10, 20),
        Err(ConfigError::OverlapTooLarge { overlap: 20, chunksize: 10 })
    );
    assert_eq!(validate_chunking(0, 0), Err(ConfigError::OverlapTooLarge { overlap: 0, chunksize: 0 }));
}

#[test]
fn chunking_is_moot_when_total_fits_one_chunk() {
    assert!(chunking_has_no_effect(10, 30));
    assert!(chunking_has_no_effect(30, 30));
    assert!(!chunking_has_no_effect(31, 30));
    assert!(!chunking_has_no_effect(20, 10));
}
