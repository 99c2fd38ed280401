use musicgpt::compose::OverlapPolicy;
use musicgpt::config::{ConfigError, SAMPLE_RATE};
use musicgpt::processor::{MusicGenJobProcessor, ProcessError};
use std::cell::RefCell;
use std::collections::VecDeque;
use std::sync::Arc;

fn linear(out: f32, inc: f32, i: usize, n: usize) -> f32 {
    let t = i as f32 / n as f32;
    out * (1.0 - t) + inc * t
}

fn tone(secs: usize, history: Option<&[f32]>) -> VecDeque<f32> {
    let seed = match history {
        Some(tail) => tail.len() as f32 * 0.000001 + tail.last().copied().unwrap_or(0.0),
        None => 0.5,
    };
    (0..secs * SAMPLE_RATE).map(|i| seed + (i % 97) as f32 * 0.001).collect()
}

fn stream_bits(stream: &VecDeque<f32>) -> Vec<u32> {
    stream.iter().map(|s| s.to_bits()).collect()
}

#[test]
fn forty_five_seconds_in_chunks_of_thirty_take_two_calls() {
    let calls = RefCell::new(Vec::new());
    let reports = RefCell::new(Vec::new());
    let processor = MusicGenJobProcessor::new(Arc::new(
        |_: &str, secs: usize, history: Option<&[f32]>| -> Result<VecDeque<f32>, String> {
            calls.borrow_mut().push((secs, history.map(|h| h.len())));
            Ok(tone(secs, history))
        },
    ));
    let stream = processor
        .process_infinite("lofi", 45, 30, 10, linear, |elapsed, total| {
            reports.borrow_mut().push((elapsed, total));
            false
        })
        .ok()
        .unwrap();
    assert_eq!(*calls.borrow(), vec![(30, None), (15, Some(10 * SAMPLE_RATE))]);
    assert_eq!(*reports.borrow(), vec![(30, 45), (45, 45)]);
    assert_eq!(stream.len(), (30 + 15 - 10) * SAMPLE_RATE);
    assert_eq!(stream.len(), 1_120_000);
}

#[test]
fn chunk_larger_than_total_is_one_call_without_compositing() {
    let calls = RefCell::new(Vec::new());
    let processor = MusicGenJobProcessor::new(Arc::new(
        |_: &str, secs: usize, history: Option<&[f32]>| -> Result<VecDeque<f32>, String> {
            calls.borrow_mut().push((secs, history.is_some()));
            Ok(tone(secs, history))
        },
    ));
    let never = |_: f32, _: f32, _: usize, _: usize| -> f32 { panic!("nothing to blend") };
    let stream = processor.process_infinite("lofi", 10, 30, 10, never, |_, _| false).ok().unwrap();
    assert_eq!(*calls.borrow(), vec![(10, false)]);
    assert_eq!(stream_bits(&stream), stream_bits(&tone(10, None)));
}

#[test]
fn stream_is_the_crossfade_of_the_raw_chunks() {
    let processor = MusicGenJobProcessor::new(Arc::new(
        |_: &str, secs: usize, history: Option<&[i64]>| -> Result<VecDeque<i64>, String> {
            let base = match history {
                Some(_) => 1_000_000,
                None => 0,
            };
            Ok((0..(secs * 4) as i64).map(|i| base + i).collect())
        },
    ));
    let tag = |out: i64, inc: i64, i: usize, n: usize| -> i64 {
        assert_eq!(n, 4);
        -(out * 10 + (inc - 1_000_000) + i as i64)
    };
    let stream = processor.process_infinite("p", 3, 2, 1, tag, |_, _| false).ok().unwrap();
    // The first chunk holds 8 samples and the second 4: both are shorter
    // than the window of one second, so the ramp covers the 4 samples that
    // both of them have.
    assert_eq!(stream.len(), 8);
    assert_eq!(stream, VecDeque::from(vec![0, 1, 2, 3, -40, -52, -64, -76]));
}

#[test]
fn continuity_is_the_tail_of_the_previous_raw_chunk() {
    let contexts = RefCell::new(Vec::new());
    let processor = MusicGenJobProcessor::new(Arc::new(
        |_: &str, secs: usize, history: Option<&[i64]>| -> Result<VecDeque<i64>, String> {
            contexts.borrow_mut().push(history.map(|h| (h.len(), h[0], h[h.len() - 1])));
            let call = contexts.borrow().len() as i64;
            Ok((0..(secs * SAMPLE_RATE) as i64).map(|i| call * 10_000_000 + i).collect())
        },
    ));
    let zero = |_: i64, _: i64, _: usize, _: usize| -> i64 { 0 };
    let stream = processor.process_infinite("p", 5, 2, 1, zero, |_, _| false).ok().unwrap();
    let rate = SAMPLE_RATE as i64;
    assert_eq!(
        *contexts.borrow(),
        vec![
            None,
            Some((SAMPLE_RATE, 10_000_000 + rate, 10_000_000 + 2 * rate - 1)),
            Some((SAMPLE_RATE, 20_000_000 + rate, 20_000_000 + 2 * rate - 1)),
        ]
    );
    assert_eq!(stream.len(), (2 + 2 + 1 - 2) * SAMPLE_RATE);
}

#[test]
fn early_stop_makes_no_further_generator_call() {
    let calls = RefCell::new(0usize);
    let processor = MusicGenJobProcessor::new(Arc::new(
        |_: &str, secs: usize, history: Option<&[f32]>| -> Result<VecDeque<f32>, String> {
            *calls.borrow_mut() += 1;
            Ok(tone(secs, history))
        },
    ));
    let stopped = processor
        .process_infinite("lofi", 9, 2, 1, linear, |elapsed, _| elapsed >= 4)
        .ok()
        .unwrap();
    assert_eq!(*calls.borrow(), 2);
    *calls.borrow_mut() = 0;
    let exact = processor.process_infinite("lofi", 4, 2, 1, linear, |_, _| false).ok().unwrap();
    assert_eq!(*calls.borrow(), 2);
    assert_eq!(stopped.len(), (2 + 2 - 1) * SAMPLE_RATE);
    assert_eq!(stream_bits(&stopped), stream_bits(&exact));
}

#[test]
fn early_stop_after_the_first_chunk_returns_it_unchanged() {
    let processor = MusicGenJobProcessor::new(Arc::new(
        |_: &str, secs: usize, history: Option<&[f32]>| -> Result<VecDeque<f32>, String> {
            Ok(tone(secs, history))
        },
    ));
    let stream = processor.process_infinite("lofi", 90, 30, 10, linear, |_, _| true).ok().unwrap();
    assert_eq!(stream_bits(&stream), stream_bits(&tone(30, None)));
}

#[test]
fn invalid_overlap_is_rejected_before_any_generator_call() {
    let calls = RefCell::new(0usize);
    let processor = MusicGenJobProcessor::new(Arc::new(
        |_: &str, secs: usize, history: Option<&[f32]>| -> Result<VecDeque<f32>, String> {
            *calls.borrow_mut() += 1;
            Ok(tone(secs, history))
        },
    ));
    let equal = processor.process_infinite("lofi", 45, 10, 10, linear, |_, _| false);
    assert!(matches!(
        equal,
        Err(ProcessError::Configuration(ConfigError::OverlapTooLarge { overlap: 10, chunksize: 10 }))
    ));
    let larger = processor.process_infinite("lofi", 45, 10, 20, linear, |_, _| false);
    assert!(matches!(
        larger,
        Err(ProcessError::Configuration(ConfigError::OverlapTooLarge { overlap: 20, chunksize: 10 }))
    ));
    assert_eq!(*calls.borrow(), 0);
}

#[test]
fn oversized_chunk_is_rejected_before_any_generator_call() {
    let calls = RefCell::new(0usize);
    let processor = MusicGenJobProcessor::new(Arc::new(
        |_: &str, secs: usize, history: Option<&[f32]>| -> Result<VecDeque<f32>, String> {
            *calls.borrow_mut() += 1;
            Ok(tone(secs, history))
        },
    ));
    let result = processor.process_infinite("lofi", 45, 31, 10, linear, |_, _| false);
    assert!(matches!(
        result,
        Err(ProcessError::Configuration(ConfigError::ChunkTooLarge { chunksize: 31 }))
    ));
    assert_eq!(*calls.borrow(), 0);
}

#[test]
fn generator_failure_discards_the_partial_stream() {
    let calls = RefCell::new(0usize);
    let reports = RefCell::new(0usize);
    let processor = MusicGenJobProcessor::new(Arc::new(
        |_: &str, secs: usize, history: Option<&[f32]>| -> Result<VecDeque<f32>, String> {
            *calls.borrow_mut() += 1;
            if *calls.borrow() == 2 {
                Err(String::from("out of memory"))
            } else {
                Ok(tone(secs, history))
            }
        },
    ));
    let result = processor.process_infinite("lofi", 6, 2, 1, linear, |_, _| {
        *reports.borrow_mut() += 1;
        false
    });
    match result {
        Err(ProcessError::Generation(e)) => assert_eq!(e, "out of memory"),
        _ => panic!("the failure of the second call is the result"),
    }
    assert_eq!(*calls.borrow(), 2);
    assert_eq!(*reports.borrow(), 1);
}

#[test]
fn rerun_with_a_deterministic_generator_is_bit_identical() {
    let processor = MusicGenJobProcessor::new(Arc::new(
        |_: &str, secs: usize, history: Option<&[f32]>| -> Result<VecDeque<f32>, String> {
            Ok(tone(secs, history))
        },
    ));
    let first = processor.process_infinite("lofi", 7, 3, 2, linear, |_, _| false).ok().unwrap();
    let second = processor.process_infinite("lofi", 7, 3, 2, linear, |_, _| false).ok().unwrap();
    assert_eq!(first.len(), (3 + 3 + 1 - 2 - 1) * SAMPLE_RATE);
    assert_eq!(stream_bits(&first), stream_bits(&second));
}

#[test]
fn zero_seconds_generate_nothing() {
    let calls = RefCell::new(0usize);
    let processor = MusicGenJobProcessor::new(Arc::new(
        |_: &str, secs: usize, history: Option<&[f32]>| -> Result<VecDeque<f32>, String> {
            *calls.borrow_mut() += 1;
            Ok(tone(secs, history))
        },
    ));
    let stream = processor.process_infinite("lofi", 0, 30, 10, linear, |_, _| false).ok().unwrap();
    assert!(stream.is_empty());
    assert_eq!(*calls.borrow(), 0);
}

#[test]
fn skip_policy_drops_the_overlap_of_every_later_chunk() {
    let processor = MusicGenJobProcessor::new(Arc::new(
        |_: &str, secs: usize, history: Option<&[f32]>| -> Result<VecDeque<f32>, String> {
            Ok(tone(secs, history))
        },
    ));
    let never = |_: f32, _: f32, _: usize, _: usize| -> f32 { panic!("nothing to blend") };
    let stream = processor
        .process_chunked("lofi", 5, 3, 1, OverlapPolicy::SkipDuplicate, never, |_, _| false)
        .ok()
        .unwrap();
    let first = tone(3, None);
    let tail: Vec<f32> = first.iter().skip(2 * SAMPLE_RATE).copied().collect();
    let second = tone(2, Some(&tail));
    assert_eq!(stream.len(), (3 + 2 - 1) * SAMPLE_RATE);
    let mut expected = stream_bits(&first);
    expected.extend(second.iter().skip(SAMPLE_RATE).map(|s| s.to_bits()));
    assert_eq!(stream_bits(&stream), expected);
}

#[test]
fn single_shot_makes_one_call_and_reports_completion() {
    let calls = RefCell::new(Vec::new());
    let reports = RefCell::new(Vec::new());
    let processor = MusicGenJobProcessor::new(Arc::new(
        |prompt: &str, secs: usize, history: Option<&[f32]>| -> Result<VecDeque<f32>, String> {
            calls.borrow_mut().push((String::from(prompt), secs, history.is_some()));
            Ok(tone(secs, history))
        },
    ));
    let stream = processor
        .process("jazz", 12, |elapsed, total| {
            reports.borrow_mut().push((elapsed, total));
            true
        })
        .unwrap();
    assert_eq!(*calls.borrow(), vec![(String::from("jazz"), 12, false)]);
    assert_eq!(*reports.borrow(), vec![(12, 12)]);
    assert_eq!(stream_bits(&stream), stream_bits(&tone(12, None)));
}

#[test]
fn single_shot_failure_is_returned_without_a_report() {
    let reports = RefCell::new(0usize);
    let processor = MusicGenJobProcessor::new(Arc::new(
        |_: &str, _: usize, _: Option<&[f32]>| -> Result<VecDeque<f32>, String> {
            Err(String::from("no model"))
        },
    ));
    let result = processor.process("jazz", 12, |_, _| {
        *reports.borrow_mut() += 1;
        false
    });
    assert_eq!(result, Err(String::from("no model")));
    assert_eq!(*reports.borrow(), 0);
}
