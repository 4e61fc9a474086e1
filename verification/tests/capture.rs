use auto_scribe::capture::{AudioCapturer, MAX_BUFFER_SAMPLES};

/// WHAT: Buffer respects MAX_BUFFER_SAMPLES limit
/// WHY: Prevents unbounded memory growth during long recordings
#[test]
fn given_buffer_at_max_capacity_when_adding_samples_then_oldest_discarded() {
    // Given: A capture buffer at max capacity filled with 0.0
    let mut capturer = AudioCapturer::new(48_000);
    let fill: Vec<u32> = vec![0.0f32.to_bits(); MAX_BUFFER_SAMPLES];
    capturer.push_frame(&fill);
    assert_eq!(capturer.len(), MAX_BUFFER_SAMPLES);

    // When: Adding 1024 new samples (value 1.0) beyond the limit
    let new_samples: Vec<u32> = vec![1.0f32.to_bits(); 1024];
    capturer.push_frame(&new_samples);

    // Then: Buffer stays at MAX_BUFFER_SAMPLES and newest samples preserved
    assert_eq!(capturer.len(), MAX_BUFFER_SAMPLES);
    let buf = capturer.stop();
    assert!((f32::from_bits(buf[MAX_BUFFER_SAMPLES - 1]) - 1.0).abs() < f32::EPSILON);
    assert!((f32::from_bits(buf[MAX_BUFFER_SAMPLES - 1024]) - 1.0).abs() < f32::EPSILON);
}

/// WHAT: Draining the buffer hands back every committed sample unchanged
/// WHY: Captured audio is never silently lost or altered on the way out
#[test]
fn stop_returns_committed_samples_unchanged() {
    let mut capturer = AudioCapturer::new(48_000);
    let frame: Vec<u32> = vec![0.5f32.to_bits(); 100];
    capturer.push_frame(&frame);

    let recovered = capturer.stop();

    assert_eq!(recovered.len(), 100);
    assert!(recovered
        .iter()
        .all(|&s| (f32::from_bits(s) - 0.5).abs() < f32::EPSILON));
}

/// WHAT: Many batches from several writers accumulate fully while under the bound
/// WHY: No samples are dropped as long as the buffer has room
#[test]
fn batches_under_bound_are_all_kept() {
    let mut capturer = AudioCapturer::new(48_000);
    // 4 writers x 1000 batches x 48 samples each, interleaved round-robin
    for _ in 0..1000 {
        for writer in 0..4u8 {
            let batch: Vec<u32> = vec![f32::from(writer).to_bits(); 48];
            capturer.push_frame(&batch);
        }
    }
    assert_eq!(capturer.len(), 4 * 1000 * 48);
    let buf = capturer.stop();
    assert!(buf.iter().all(|&s| f32::from_bits(s).is_finite()));
}

/// WHAT: No write is observed after the shutdown fence is up
/// WHY: A stop request fences in-flight callbacks from committing audio
#[test]
fn push_after_stop_writes_nothing() {
    let mut capturer = AudioCapturer::new(48_000);
    let frame: Vec<u32> = vec![0.25f32.to_bits(); 64];
    capturer.push_frame(&frame);
    let drained = capturer.stop();
    assert_eq!(drained.len(), 64);

    capturer.push_frame(&frame);
    assert_eq!(capturer.len(), 64);
}

/// WHAT: Starting a session clears leftovers and lowers the fence
/// WHY: Each recording starts from a clean buffer that accepts writes
#[test]
fn start_clears_buffer_and_accepts_writes_again() {
    let mut capturer = AudioCapturer::new(44_100);
    let frame: Vec<u32> = vec![0.75f32.to_bits(); 10];
    capturer.push_frame(&frame);
    let _ = capturer.stop();

    capturer.start();
    assert_eq!(capturer.len(), 0);
    capturer.push_frame(&frame);
    assert_eq!(capturer.len(), 10);
    assert_eq!(capturer.sample_rate(), 44_100);
}

/// WHAT: Eviction keeps the most recent samples in their push order
/// WHY: The bound discards the oldest audio first, never reorders
#[test]
fn eviction_keeps_most_recent_in_order() {
    let mut capturer = AudioCapturer::new(48_000);
    let first: Vec<u32> = (0..MAX_BUFFER_SAMPLES as u32).collect();
    capturer.push_frame(&first);
    let second: Vec<u32> = (0..10u32).map(|i| 5_000_000 + i).collect();
    capturer.push_frame(&second);

    let buf = capturer.stop();
    assert_eq!(buf.len(), MAX_BUFFER_SAMPLES);
    // The ten oldest samples fell out of the front
    assert_eq!(buf[0], 10);
    // The tail is the new frame, in push order
    for i in 0..10 {
        assert_eq!(buf[MAX_BUFFER_SAMPLES - 10 + i], 5_000_000 + i as u32);
    }
}
