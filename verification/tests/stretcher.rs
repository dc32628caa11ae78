use bungee_rs::EngineConfig;
use bungee_rs::InputChunk;
use bungee_rs::OutputChunk;
use bungee_rs::Phase;
use bungee_rs::Stretcher;

/// A request as the engine takes it: position, speed, pitch, reset.
#[derive(Debug, Clone, Copy, PartialEq)]
struct Request {
    position: f64,
    speed: f64,
    pitch: f64,
    reset: bool,
}

#[test]
fn stretcher_processing() {
    // One grain through the whole protocol, with a sine wave as input. The
    // values that come from the engine are given here.
    let mut stretcher = Stretcher::new(44100, 1, Some(4096)).unwrap();

    let mut request = Request { pitch: 1.0, speed: 1.0, position: 0.0, reset: false };

    // Preroll: the engine moves the position back and sets the reset flag.
    stretcher.preroll();
    request.position = -256.0;
    request.reset = true;
    assert_eq!(stretcher.phase(), Phase::Prerolled);

    // Specify grain
    let input_chunk = stretcher.specify_grain(request.position.is_nan(), -1280, 768);
    let sample_count = (input_chunk.end - input_chunk.begin).max(0) as usize;
    assert_eq!(sample_count, 2048);
    assert_eq!(input_chunk.len(), sample_count);

    // Create a simple sine wave for testing
    let mut data = vec![0.0f32; sample_count];
    for (i, sample) in data.iter_mut().enumerate().take(sample_count) {
        *sample = (i as f32 * 0.1).sin();
    }

    // Analyse grain with sine wave data
    assert!(stretcher.grain_fits(data.len(), 1));
    stretcher.analyse_grain(&data, 1);

    // Synthesise grain: the engine reports 512 frames at a stride of 512.
    let mut output_data = vec![0.0f32; 1024];
    let empty: OutputChunk<f32, Request> = OutputChunk::new(&mut output_data, 1);
    assert_eq!(empty.frame_count, 0);
    stretcher.synthesise_grain();
    let len = OutputChunk::<f32, Request>::data_len(512, 512).unwrap();
    assert_eq!(len, 512 * 512);
    let mut engine_data = vec![0.0f32; len];
    let output = OutputChunk::from_engine(&mut engine_data, 512, 512, [Some(request), None]);

    // Next
    stretcher.next(false);
    request.position = 0.0;
    request.reset = false;

    // Verify the request was updated and output was produced
    assert!(request.position >= 0.0);
    assert!(output.frame_count > 0);
    assert_eq!(stretcher.phase(), Phase::Advanced);
    assert!(!stretcher.is_flushed());
}

#[test]
fn construction_refuses_zero_sample_rate() {
    assert_eq!(Stretcher::new(0, 2, Some(4096)).unwrap_err(), "Invalid sample rate");
    assert_eq!(EngineConfig::new(0, 2).unwrap_err(), "Invalid sample rate");
}

#[test]
fn construction_refuses_zero_channel_count() {
    assert_eq!(Stretcher::new(48000, 0, Some(4096)).unwrap_err(), "Invalid channel count");
    assert_eq!(EngineConfig::new(48000, 0).unwrap_err(), "Invalid channel count");
}

#[test]
fn zero_sample_rate_is_reported_before_zero_channels() {
    assert_eq!(Stretcher::new(0, 0, None).unwrap_err(), "Invalid sample rate");
    assert_eq!(EngineConfig::new(0, 0).unwrap_err(), "Invalid sample rate");
}

#[test]
fn construction_fails_without_an_engine() {
    assert_eq!(Stretcher::new(44100, 2, None).unwrap_err(), "Failed to create Bungee stretcher");
}

#[test]
fn refused_configuration_is_reported_before_a_missing_engine() {
    assert_eq!(Stretcher::new(44100, 0, None).unwrap_err(), "Invalid channel count");
}

#[test]
fn construction_succeeds_for_positive_rate_and_channels() {
    for &(rate, channels, bound) in
        &[(1usize, 1usize, 1usize), (8000, 1, 512), (44100, 2, 4096), (192000, 8, 65536)]
    {
        let stretcher = Stretcher::new(rate, channels, Some(bound)).unwrap();
        assert_eq!(stretcher.sample_rate(), rate);
        assert_eq!(stretcher.num_channels(), channels);
        assert_eq!(stretcher.max_input_frame_count(), bound);
        assert!(stretcher.max_input_frame_count() > 0);
        assert_eq!(stretcher.phase(), Phase::Uninitialized);
        assert!(!stretcher.is_flushed());
    }
}

#[test]
fn engine_config_uses_one_rate_and_no_hop_adjustment() {
    let config = EngineConfig::new(44100, 2).unwrap();
    assert_eq!(config.sample_rates.input, 44100);
    assert_eq!(config.sample_rates.output, 44100);
    assert_eq!(config.channel_count, 2);
    assert_eq!(config.log2_synthesis_hop_adjust, 0);
}

#[test]
fn engine_config_keeps_the_low_32_bits() {
    let config = EngineConfig::new(usize::MAX, usize::MAX).unwrap();
    assert_eq!(config.sample_rates.input, -1);
    assert_eq!(config.sample_rates.output, -1);
    assert_eq!(config.channel_count, -1);
    let config = EngineConfig::new(i32::MAX as usize, 1).unwrap();
    assert_eq!(config.sample_rates.input, i32::MAX);
}

#[test]
fn grains_follow_one_another() {
    let mut stretcher = Stretcher::new(48000, 2, Some(1000)).unwrap();
    stretcher.preroll();
    for grain in 0..3 {
        let begin = grain * 256 - 500;
        let chunk = stretcher.specify_grain(false, begin, begin + 1000);
        assert_eq!(chunk, InputChunk { begin: begin as isize, end: begin as isize + 1000 });
        assert_eq!(stretcher.phase(), Phase::Specified);
        let data = vec![0i16; 2000];
        stretcher.analyse_grain(&data, 1000);
        assert_eq!(stretcher.phase(), Phase::Analysed);
        stretcher.synthesise_grain();
        assert_eq!(stretcher.phase(), Phase::Synthesised);
        stretcher.next(true);
        assert_eq!(stretcher.phase(), Phase::Advanced);
        assert!(!stretcher.is_flushed());
    }
    assert_eq!(stretcher.sample_rate(), 48000);
    assert_eq!(stretcher.num_channels(), 2);
    assert_eq!(stretcher.max_input_frame_count(), 1000);
}

#[test]
fn flushing_grains_drain_the_pipeline() {
    let mut stretcher = Stretcher::new(44100, 1, Some(4096)).unwrap();
    stretcher.preroll();
    // A real grain first.
    stretcher.specify_grain(false, 0, 4096);
    stretcher.analyse_grain(&vec![0u8; 4096], 4096);
    stretcher.synthesise_grain();
    stretcher.next(false);
    // Flushing grains, until the engine reports its pipeline flushed.
    let position = f64::NAN;
    for flushed in [false, false, true] {
        assert!(!stretcher.is_flushed());
        let chunk = stretcher.specify_grain(position.is_nan(), 0, 0);
        assert!(chunk.is_empty());
        let nothing: Vec<u8> = Vec::new();
        assert!(stretcher.grain_fits(nothing.len(), 0));
        stretcher.analyse_grain(&nothing, 0);
        stretcher.synthesise_grain();
        stretcher.next(flushed);
    }
    assert!(stretcher.is_flushed());
    assert_eq!(stretcher.phase(), Phase::Flushed);
}

#[test]
fn only_a_flushing_grain_ends_in_flushed() {
    let mut stretcher = Stretcher::new(44100, 1, Some(16)).unwrap();
    stretcher.preroll();
    stretcher.specify_grain(false, 0, 16);
    stretcher.analyse_grain(&vec![0u8; 16], 16);
    stretcher.synthesise_grain();
    stretcher.next(true);
    assert!(!stretcher.is_flushed());
    assert_eq!(stretcher.phase(), Phase::Advanced);
}

#[test]
fn grain_fits_counts_every_channel() {
    let mut stretcher = Stretcher::new(44100, 3, Some(100)).unwrap();
    stretcher.preroll();
    let chunk = stretcher.specify_grain(false, -40, 60);
    assert_eq!(chunk.len(), 100);
    // Three channels, 128 samples apart: the last one ends at 2 * 128 + 100.
    assert!(stretcher.grain_fits(356, 128));
    assert!(!stretcher.grain_fits(355, 128));
    // Tightly packed.
    assert!(stretcher.grain_fits(300, 100));
    assert!(!stretcher.grain_fits(299, 100));
    // A stride so large that the offset of the last channel leaves `usize`.
    assert!(!stretcher.grain_fits(usize::MAX, usize::MAX));
    assert!(!stretcher.grain_fits(99, 0));
    assert!(stretcher.grain_fits(100, 0));
}

#[test]
fn grain_fits_an_empty_chunk_in_an_empty_buffer() {
    let mut stretcher = Stretcher::new(44100, 1, Some(100)).unwrap();
    stretcher.preroll();
    // A reversed range counts as empty.
    let chunk = stretcher.specify_grain(false, 10, -10);
    assert_eq!(chunk.len(), 0);
    assert!(stretcher.grain_fits(0, 0));
    assert!(stretcher.grain_fits(0, 7));
}
