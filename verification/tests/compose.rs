use musicgpt::compose::{
    append_from, append_skipping, compose_chunk, continuity_tail, crossfade_into, OverlapPolicy,
};
use std::collections::VecDeque;

fn ramp_blend(out: f32, inc: f32, i: usize, n: usize) -> f32 {
    let t = i as f32 / n as f32;
    out * (1.0 - t) + inc * t
}

fn deque_of(values: &[f32]) -> VecDeque<f32> {
    values.iter().copied().collect()
}

fn bits_of(stream: &VecDeque<f32>) -> Vec<u32> {
    stream.iter().map(|s| s.to_bits()).collect()
}

#[test]
fn crossfade_of_two_chunks_shortens_by_the_window() {
    let first: Vec<f32> = (0..10).map(|i| i as f32).collect();
    let second: Vec<f32> = (0..8).map(|i| 100.0 + i as f32).collect();
    let mut stream = VecDeque::new();
    crossfade_into(&mut stream, &deque_of(&first), 4, &ramp_blend);
    assert_eq!(bits_of(&stream), bits_of(&deque_of(&first)));
    crossfade_into(&mut stream, &deque_of(&second), 4, &ramp_blend);
    assert_eq!(stream.len(), 10 + 8 - 4);
    for p in 0..6 {
        assert_eq!(stream[p].to_bits(), first[p].to_bits());
    }
    for i in 4..8 {
        assert_eq!(stream[6 + i].to_bits(), second[i].to_bits());
    }
}

#[test]
fn crossfade_ramp_starts_on_the_outgoing_sample() {
    let first = [0.25f32, -0.5, 0.75, 0.125];
    let second = [0.9f32, 0.8, 0.7, 0.6];
    let mut stream = deque_of(&first);
    crossfade_into(&mut stream, &deque_of(&second), 2, &ramp_blend);
    assert_eq!(stream.len(), 6);
    assert_eq!(stream[2].to_bits(), first[2].to_bits());
    assert_eq!(stream[3], 0.125 * 0.5 + 0.8 * 0.5);
    assert_eq!(stream[4].to_bits(), second[2].to_bits());
    assert_eq!(stream[5].to_bits(), second[3].to_bits());
}

#[test]
fn crossfade_ramp_approaches_the_incoming_sample() {
    let n = 1000usize;
    let first: Vec<f32> = vec![1.0; n];
    let second: Vec<f32> = vec![-1.0; n];
    let mut stream = deque_of(&first);
    crossfade_into(&mut stream, &deque_of(&second), n, &ramp_blend);
    assert_eq!(stream.len(), n);
    assert_eq!(stream[0], 1.0);
    assert!((stream[n - 1] - (-1.0)).abs() < 0.005);
    for p in 1..n {
        assert!(stream[p] < stream[p - 1]);
    }
}

#[test]
fn crossfade_hands_blend_the_ramp_position_and_length() {
    let seen = std::cell::RefCell::new(Vec::new());
    let spy = |out: i32, inc: i32, i: usize, n: usize| {
        seen.borrow_mut().push((out, inc, i, n));
        out * 1000 + inc
    };
    let mut stream: VecDeque<i32> = (1..=5).collect();
    let chunk: VecDeque<i32> = (11..=14).collect();
    crossfade_into(&mut stream, &chunk, 3, &spy);
    assert_eq!(*seen.borrow(), vec![(3, 11, 0, 3), (4, 12, 1, 3), (5, 13, 2, 3)]);
    assert_eq!(stream, VecDeque::from(vec![1, 2, 3011, 4012, 5013, 14]));
}

#[test]
fn crossfade_window_is_cut_to_the_shorter_side() {
    let pick_incoming = |_: i32, inc: i32, _: usize, _: usize| inc;
    let mut stream: VecDeque<i32> = VecDeque::from(vec![1, 2]);
    crossfade_into(&mut stream, &VecDeque::from(vec![7, 8, 9]), 10, &pick_incoming);
    assert_eq!(stream, VecDeque::from(vec![7, 8, 9]));
    let mut stream: VecDeque<i32> = VecDeque::from(vec![1, 2, 3, 4]);
    crossfade_into(&mut stream, &VecDeque::from(vec![7]), 10, &pick_incoming);
    assert_eq!(stream, VecDeque::from(vec![1, 2, 3, 7]));
}

#[test]
fn crossfade_without_overlap_appends_unchanged() {
    let never = |_: i32, _: i32, _: usize, _: usize| -> i32 { panic!("nothing to blend") };
    let mut stream: VecDeque<i32> = VecDeque::from(vec![1, 2, 3]);
    crossfade_into(&mut stream, &VecDeque::from(vec![4, 5]), 0, &never);
    assert_eq!(stream, VecDeque::from(vec![1, 2, 3, 4, 5]));
    let mut empty: VecDeque<i32> = VecDeque::new();
    crossfade_into(&mut empty, &VecDeque::from(vec![4, 5]), 2, &never);
    assert_eq!(empty, VecDeque::from(vec![4, 5]));
    let mut stream: VecDeque<i32> = VecDeque::from(vec![1, 2, 3]);
    crossfade_into(&mut stream, &VecDeque::new(), 2, &never);
    assert_eq!(stream, VecDeque::from(vec![1, 2, 3]));
}

#[test]
fn skip_policy_drops_the_prefix_and_blends_nothing() {
    let first = [0.1f32, 0.2, 0.3, 0.4, 0.5];
    let second = [0.6f32, 0.7, 0.8, 0.9];
    let mut stream = VecDeque::new();
    append_skipping(&mut stream, &deque_of(&first), 3, 0);
    assert_eq!(bits_of(&stream), bits_of(&deque_of(&first)));
    append_skipping(&mut stream, &deque_of(&second), 3, 1);
    assert_eq!(stream.len(), 5 + 4 - 3);
    for p in 0..5 {
        assert_eq!(stream[p].to_bits(), first[p].to_bits());
    }
    assert_eq!(stream[5].to_bits(), second[3].to_bits());
}

#[test]
fn skip_policy_drops_a_chunk_shorter_than_the_prefix() {
    let mut stream: VecDeque<i32> = VecDeque::from(vec![1, 2, 3]);
    append_skipping(&mut stream, &VecDeque::from(vec![4, 5]), 5, 1);
    assert_eq!(stream, VecDeque::from(vec![1, 2, 3]));
    append_skipping(&mut stream, &VecDeque::from(vec![4, 5]), 2, 2);
    assert_eq!(stream, VecDeque::from(vec![1, 2, 3]));
    append_skipping(&mut stream, &VecDeque::from(vec![4, 5]), 1, 3);
    assert_eq!(stream, VecDeque::from(vec![1, 2, 3, 5]));
}

#[test]
fn compose_chunk_follows_the_policy() {
    let sum = |out: i32, inc: i32, _: usize, _: usize| out + inc;
    let chunk: VecDeque<i32> = VecDeque::from(vec![10, 20, 30]);
    let mut faded: VecDeque<i32> = VecDeque::from(vec![1, 2, 3]);
    compose_chunk(OverlapPolicy::CrossFade, &mut faded, &chunk, 2, 1, &sum);
    assert_eq!(faded, VecDeque::from(vec![1, 12, 23, 30]));
    let mut skipped: VecDeque<i32> = VecDeque::from(vec![1, 2, 3]);
    compose_chunk(OverlapPolicy::SkipDuplicate, &mut skipped, &chunk, 2, 1, &sum);
    assert_eq!(skipped, VecDeque::from(vec![1, 2, 3, 30]));
    let mut first: VecDeque<i32> = VecDeque::new();
    compose_chunk(OverlapPolicy::SkipDuplicate, &mut first, &chunk, 2, 0, &sum);
    assert_eq!(first, chunk);
}

#[test]
fn append_from_copies_the_rest_of_the_chunk() {
    let mut stream: VecDeque<i32> = VecDeque::from(vec![1]);
    append_from(&mut stream, &VecDeque::from(vec![7, 8, 9]), 1);
    assert_eq!(stream, VecDeque::from(vec![1, 8, 9]));
    append_from(&mut stream, &VecDeque::from(vec![7, 8, 9]), 3);
    assert_eq!(stream, VecDeque::from(vec![1, 8, 9]));
}

#[test]
fn continuity_is_the_tail_of_the_chunk() {
    let chunk: VecDeque<i32> = (1..=6).collect();
    assert_eq!(continuity_tail(&chunk, 2), vec![5, 6]);
    assert_eq!(continuity_tail(&chunk, 6), vec![1, 2, 3, 4, 5, 6]);
    assert_eq!(continuity_tail(&chunk, 100), vec![1, 2, 3, 4, 5, 6]);
    assert_eq!(continuity_tail(&chunk, 0), Vec::<i32>::new());
}
