use audio_router::gain::{GainControl, UNITY_GAIN};
use audio_router::sample_queue::{SampleQueue, SILENCE};

fn scaled(sample: f32, level: u32) -> u32 {
    (sample * (level as f32 / UNITY_GAIN as f32)).to_bits()
}

#[test]
fn unity_gain_passes_three_samples_in_order_then_empty() {
    let gain = GainControl::new();
    let mut q = SampleQueue::new(8);
    for s in [0.1f32, 0.2, 0.3] {
        assert!(q.push(scaled(s, gain.get())));
    }
    assert_eq!(q.pop().map(f32::from_bits), Some(0.1));
    assert_eq!(q.pop().map(f32::from_bits), Some(0.2));
    assert_eq!(q.pop().map(f32::from_bits), Some(0.3));
    assert_eq!(q.pop(), None);
}

#[test]
fn pop_on_empty_queue_yields_nothing() {
    let mut q = SampleQueue::new(4);
    assert_eq!(q.pop(), None);
    assert_eq!(q.pop(), None);
    assert!(q.push(7));
    assert_eq!(q.pop(), Some(7));
    assert_eq!(q.pop(), None);
}

#[test]
fn overflow_keeps_first_capacity_samples() {
    let mut q = SampleQueue::new(3);
    let results: Vec<bool> = (10u32..15).map(|s| q.push(s)).collect();
    assert_eq!(results, vec![true, true, true, false, false]);
    assert_eq!(q.pop(), Some(10));
    assert_eq!(q.pop(), Some(11));
    assert_eq!(q.pop(), Some(12));
    assert_eq!(q.pop(), None);
}

#[test]
fn interleaved_pushes_and_pops_stay_in_order() {
    let mut q = SampleQueue::new(2);
    assert!(q.push(1));
    assert!(q.push(2));
    assert_eq!(q.pop(), Some(1));
    assert!(q.push(3));
    assert!(!q.push(4));
    assert_eq!(q.pop(), Some(2));
    assert_eq!(q.pop(), Some(3));
    assert_eq!(q.pop(), None);
    assert!(q.push(5));
    assert_eq!(q.pop(), Some(5));
}

#[test]
fn capacity_of_one() {
    let mut q = SampleQueue::new(1);
    assert_eq!(q.capacity(), 1);
    assert!(q.push(9));
    assert!(!q.push(8));
    assert_eq!(q.pop(), Some(9));
    assert_eq!(q.pop(), None);
}

#[test]
fn cushion_prefills_silence() {
    let mut q = SampleQueue::with_cushion(5, 2);
    assert_eq!(q.capacity(), 5);
    assert_eq!(q.pop(), Some(SILENCE));
    assert_eq!(q.pop(), Some(SILENCE));
    assert_eq!(q.pop(), None);
}

#[test]
fn cushion_larger_than_capacity_fills_queue() {
    let mut q = SampleQueue::with_cushion(3, 10);
    assert!(!q.push(1));
    assert_eq!(q.pop(), Some(SILENCE));
    assert!(q.push(1));
    assert_eq!(q.pop(), Some(SILENCE));
    assert_eq!(q.pop(), Some(SILENCE));
    assert_eq!(q.pop(), Some(1));
    assert_eq!(q.pop(), None);
}

#[test]
fn split_ends_carry_samples_and_count_drops_and_underruns() {
    let q = SampleQueue::new(2);
    let (mut producer, mut consumer) = q.split();
    assert!(producer.push(4));
    assert!(producer.push(5));
    assert!(!producer.push(6));
    assert_eq!(producer.dropped(), 1);
    assert_eq!(consumer.pop(), Some(4));
    assert_eq!(consumer.pop_or_silence(), (5, true));
    assert_eq!(consumer.pop_or_silence(), (SILENCE, false));
    assert_eq!(consumer.pop(), None);
    assert_eq!(consumer.underruns(), 1);
}
