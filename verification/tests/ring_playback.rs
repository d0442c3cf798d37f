use mic_mixer::playback::FilePlayback;
use mic_mixer::ring::RingBuffer;

#[test]
fn push_then_pop_returns_samples_in_order() {
    let mut rb = RingBuffer::new(8);
    rb.push(&vec![1, 2, 3]);
    rb.push(&vec![4, 5]);
    assert_eq!(rb.available(), 5);
    let mut out = vec![0i32; 5];
    let n = rb.pop(&mut out);
    assert_eq!(n, 5);
    assert_eq!(out, vec![1, 2, 3, 4, 5]);
}

#[test]
fn capacity_is_fixed_at_construction() {
    let mut rb = RingBuffer::new(4);
    assert_eq!(rb.capacity(), 4);
    rb.push(&vec![1, 2, 3, 4, 5, 6]);
    let mut out = vec![0i32; 2];
    rb.pop(&mut out);
    assert_eq!(rb.capacity(), 4);
}

#[test]
fn pop_on_empty_returns_zero_and_leaves_buffer_untouched() {
    let mut rb = RingBuffer::new(4);
    let mut out = vec![7i32, 8, 9];
    let n = rb.pop(&mut out);
    assert_eq!(n, 0);
    assert_eq!(out, vec![7, 8, 9]);
}

#[test]
fn pop_never_exceeds_available_or_buffer_len() {
    let mut rb = RingBuffer::new(8);
    rb.push(&vec![10, 20]);
    let mut small = vec![0i32; 1];
    assert_eq!(rb.pop(&mut small), 1);
    assert_eq!(small, vec![10]);
    let mut large = vec![-1i32; 4];
    let n = rb.pop(&mut large);
    assert_eq!(n, 1);
    assert_eq!(large, vec![20, -1, -1, -1]);
}

#[test]
fn push_within_capacity_loses_nothing_across_wraparound() {
    let mut rb = RingBuffer::new(4);
    rb.push(&vec![1, 2, 3]);
    let mut out = vec![0i32; 2];
    assert_eq!(rb.pop(&mut out), 2);
    // cursors have advanced; the next push wraps around the end
    rb.push(&vec![4, 5]);
    let mut rest = vec![0i32; 3];
    assert_eq!(rb.pop(&mut rest), 3);
    assert_eq!(rest, vec![3, 4, 5]);
}

#[test]
fn overflow_overwrites_oldest_and_cursors_tell_the_loss() {
    let mut rb = RingBuffer::new(4);
    // five samples into four slots: the write cursor passes the read cursor
    rb.push(&vec![1, 2, 3, 4, 5]);
    // cursor arithmetic now reports one unread sample: the newest one,
    // sitting just behind the write cursor
    assert_eq!(rb.available(), 1);
    let mut out = vec![0i32; 4];
    let n = rb.pop(&mut out);
    assert_eq!(n, 1);
    assert_eq!(out[0], 5);
}

#[test]
fn mix_into_sums_on_top_and_reports_exhaustion_on_the_final_call() {
    // six samples played through two buffers of three: the second call
    // consumes the last sample and already reports no more data
    let samples = vec![100, 200, 300, 400, 500, 600];
    let mut fp = FilePlayback::new(samples, 1000);
    let mut out = vec![10i32, 20, 30];
    let more = fp.mix_into(&mut out);
    assert!(more);
    assert_eq!(out, vec![110, 220, 330]);
    let mut out2 = vec![1i32, 2, 3];
    let more2 = fp.mix_into(&mut out2);
    assert!(!more2);
    assert_eq!(out2, vec![401, 502, 603]);
    // and it stays exhausted
    let mut out3 = vec![9i32, 9];
    assert!(!fp.mix_into(&mut out3));
    assert_eq!(out3, vec![9, 9]);
}

#[test]
fn mix_into_applies_the_per_file_gain_truncating() {
    let mut fp = FilePlayback::new(vec![600_000, -333], 500);
    let mut out = vec![0i32, 0];
    fp.mix_into(&mut out);
    assert_eq!(out[0], 300_000);
    // -333 * 500 / 1000 truncates toward zero
    assert_eq!(out[1], -166);
}

#[test]
fn playback_gain_is_clamped_at_creation() {
    let mut loud = FilePlayback::new(vec![100_000], 5000);
    let mut out = vec![0i32];
    loud.mix_into(&mut out);
    assert_eq!(out[0], 100_000);
    let mut neg = FilePlayback::new(vec![100_000], -7);
    let mut out2 = vec![0i32];
    neg.mix_into(&mut out2);
    assert_eq!(out2[0], 0);
}

#[test]
fn mix_into_on_empty_buffer_reports_remaining_data() {
    let mut fp = FilePlayback::new(vec![1, 2], 1000);
    let mut out: Vec<i32> = vec![];
    assert!(fp.mix_into(&mut out));
}
