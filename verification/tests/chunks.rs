use bungee_rs::planar::fits;
use bungee_rs::InputChunk;
use bungee_rs::OutputChunk;
use bungee_rs::SampleRates;

#[test]
fn input_chunk_len_is_end_minus_begin() {
    assert_eq!(InputChunk { begin: 0, end: 1024 }.len(), 1024);
    assert_eq!(InputChunk { begin: 100, end: 101 }.len(), 1);
    assert_eq!(InputChunk { begin: -7, end: -3 }.len(), 4);
    assert!(!InputChunk { begin: -7, end: -3 }.is_empty());
}

#[test]
fn input_chunk_may_begin_before_the_track() {
    let chunk = InputChunk::new(-512, 1536);
    assert_eq!(chunk.begin, -512);
    assert_eq!(chunk.end, 1536);
    assert_eq!(chunk.len(), 2048);
    assert!(!chunk.is_empty());
}

#[test]
fn empty_and_reversed_input_chunks_have_no_frames() {
    assert_eq!(InputChunk { begin: 5, end: 5 }.len(), 0);
    assert!(InputChunk { begin: 5, end: 5 }.is_empty());
    assert_eq!(InputChunk { begin: 9, end: 3 }.len(), 0);
    assert!(InputChunk { begin: 9, end: 3 }.is_empty());
    assert_eq!(InputChunk { begin: isize::MAX, end: isize::MIN }.len(), 0);
}

#[test]
fn input_chunk_len_does_not_overflow() {
    assert_eq!(InputChunk { begin: isize::MIN, end: isize::MAX }.len(), usize::MAX);
    assert_eq!(InputChunk { begin: -1, end: isize::MAX }.len(), isize::MAX as usize + 1);
    assert_eq!(InputChunk { begin: isize::MIN, end: 0 }.len(), isize::MAX as usize + 1);
    assert_eq!(InputChunk { begin: isize::MIN, end: -1 }.len(), isize::MAX as usize);
    let widest = InputChunk::new(i32::MIN, i32::MAX);
    assert_eq!(widest.len(), u32::MAX as usize);
}

#[test]
fn input_chunks_compare_by_their_bounds() {
    assert_eq!(InputChunk::new(1, 2), InputChunk { begin: 1, end: 2 });
    assert_ne!(InputChunk::new(1, 2), InputChunk::new(2, 1));
}

#[test]
fn sample_rates_compare_by_their_fields() {
    let rates = SampleRates { input: 44100, output: 48000 };
    assert_eq!(rates, SampleRates { input: 44100, output: 48000 });
    assert_ne!(rates, SampleRates { input: 48000, output: 44100 });
}

#[test]
fn planar_buffer_holds_every_channel() {
    // Two channels of 10 frames, 16 samples apart: the second ends at 26.
    assert!(fits(26, 16, 10, 2));
    assert!(!fits(25, 16, 10, 2));
    // One channel: the stride does not count.
    assert!(fits(10, 1, 10, 1));
    assert!(fits(10, usize::MAX, 10, 1));
    assert!(!fits(9, 1, 10, 1));
    // No channel: nothing to hold.
    assert!(fits(0, 5, 7, 0));
    // Offsets that leave the range of `usize` never fit.
    assert!(!fits(usize::MAX, usize::MAX, 0, 3));
    assert!(!fits(usize::MAX, usize::MAX / 2 + 1, 0, 3));
    assert!(fits(usize::MAX, usize::MAX / 2, 1, 3));
    assert!(!fits(usize::MAX, usize::MAX / 2, 2, 3));
}

#[test]
fn new_output_chunk_is_empty() {
    let mut data = vec![0.5f32; 1024];
    let chunk: OutputChunk<f32, u8> = OutputChunk::new(&mut data, 512);
    assert_eq!(chunk.frame_count, 0);
    assert_eq!(chunk.channel_stride, 512);
    assert_eq!(chunk.data.len(), 1024);
    assert_eq!(chunk.request, [None, None]);
    assert!(chunk.has_channel(0));
    assert!(chunk.has_channel(2));
    assert!(!chunk.has_channel(3));
    assert_eq!(chunk.channel(1).len(), 0);
}

#[test]
fn engine_data_len_is_frames_times_stride() {
    assert_eq!(OutputChunk::<f32, u8>::data_len(256, 512), Some(131072));
    assert_eq!(OutputChunk::<f32, u8>::data_len(1, 1), Some(1));
    assert_eq!(OutputChunk::<f32, u8>::data_len(i32::MAX, 1), Some(i32::MAX as usize));
}

#[test]
fn engine_data_len_is_zero_unless_both_are_positive() {
    assert_eq!(OutputChunk::<f32, u8>::data_len(0, 512), Some(0));
    assert_eq!(OutputChunk::<f32, u8>::data_len(256, 0), Some(0));
    assert_eq!(OutputChunk::<f32, u8>::data_len(-1, 512), Some(0));
    assert_eq!(OutputChunk::<f32, u8>::data_len(256, -512), Some(0));
    assert_eq!(OutputChunk::<f32, u8>::data_len(i32::MIN, isize::MIN), Some(0));
}

#[test]
fn engine_data_len_that_leaves_usize_is_none() {
    assert_eq!(OutputChunk::<f32, u8>::data_len(4, isize::MAX), None);
    assert_eq!(OutputChunk::<f32, u8>::data_len(3, isize::MAX), None);
    assert_eq!(
        OutputChunk::<f32, u8>::data_len(2, isize::MAX),
        Some(usize::MAX - 1)
    );
}

#[test]
fn output_chunk_channels_are_stride_apart() {
    let mut data: Vec<i32> = (0..12).collect();
    let chunk = OutputChunk::from_engine(&mut data, 3, 4, [Some('a'), None]);
    assert_eq!(chunk.frame_count, 3);
    assert_eq!(chunk.channel_stride, 4);
    assert_eq!(chunk.request, [Some('a'), None]);
    assert_eq!(chunk.channel(0), &[0, 1, 2]);
    assert_eq!(chunk.channel(1), &[4, 5, 6]);
    assert_eq!(chunk.channel(2), &[8, 9, 10]);
    assert!(chunk.has_channel(2));
    assert!(!chunk.has_channel(3));
    assert!(!chunk.has_channel(usize::MAX));
}

#[test]
fn output_chunk_without_room_holds_no_channel() {
    let mut data = vec![0u8; 4];
    let chunk: OutputChunk<u8, u8> = OutputChunk::from_engine(&mut data, 5, 1, [None, None]);
    assert!(!chunk.has_channel(0));
    let mut data = vec![0u8; 5];
    let chunk: OutputChunk<u8, u8> = OutputChunk::from_engine(&mut data, 5, 1, [None, None]);
    assert!(chunk.has_channel(0));
    assert!(!chunk.has_channel(1));
    assert_eq!(chunk.channel(0).len(), 5);
}
