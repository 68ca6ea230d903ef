//! Frame accumulation, resampling, model handling and pipeline stages.

use kwite::SCALE;
use kwite::frame::{downmix_first_channel, drain_frames, FrameAccumulator, OutputRing};
use kwite::models::{EnhancedAudioProcessor, NoiseModel, UseCase};
use kwite::pipeline::{
    calculate_intelligent_gain, determine_processing_parameters, select_gain,
    AdvancedNoisePipeline, DebugFlags, DynamicRangeProcessor, GainParameters,
    ProcessingParameters, SpectralGate,
};
use kwite::resampling::{
    adapt_frame_for_rnnoise, calculate_frame_size_for_sample_rate, get_configuration_advice,
    is_optimal_configuration, ResampleError, SimpleResampler,
};
use kwite::analysis::{AudioContext, FrequencyProfile, NoiseType};

#[test]
fn test_model_properties() {
    assert_eq!(NoiseModel::Auto.name(), "Auto");
    assert_eq!(NoiseModel::RNNoise.name(), "RNNoise");
    assert!(NoiseModel::Auto.is_available());
    assert!(NoiseModel::RNNoise.is_available());
    assert_eq!(NoiseModel::Auto.cpu_usage_level(), 2);
    assert_eq!(NoiseModel::RNNoise.cpu_usage_level(), 2);
}

#[test]
fn test_available_models() {
    let available = NoiseModel::available_models();
    assert_eq!(available.len(), 2);
    assert!(available.contains(&NoiseModel::Auto));
    assert!(available.contains(&NoiseModel::RNNoise));
}

#[test]
fn test_available_models_include_rnnoise() {
    let available = NoiseModel::available_models();
    assert!(available.contains(&NoiseModel::RNNoise), "RNNoise should always be available");
    assert!(available.contains(&NoiseModel::Auto), "Auto mode should be available");
    assert_eq!(available.len(), 2, "Auto and RNNoise should be available");
}

#[test]
fn test_model_metadata() {
    assert_eq!(NoiseModel::RNNoise.frame_size(), 480);
    assert_eq!(NoiseModel::Auto.frame_size(), 480);
    assert!(NoiseModel::Auto.description().contains("Automatically"));
    assert_eq!(NoiseModel::default(), NoiseModel::Auto);
    assert_eq!(
        NoiseModel::recommended_for_use_case(UseCase::GeneralPurpose),
        NoiseModel::Auto
    );
    assert_eq!(
        NoiseModel::recommended_for_use_case(UseCase::OfficeEnvironment),
        NoiseModel::RNNoise
    );
}

#[test]
fn test_enhanced_processor_creation() {
    let processor = EnhancedAudioProcessor::new(NoiseModel::RNNoise);
    assert_eq!(processor.current_model(), NoiseModel::RNNoise);
    assert_eq!(processor.active_model(), NoiseModel::RNNoise);

    let processor = EnhancedAudioProcessor::new(NoiseModel::Auto);
    assert_eq!(processor.current_model(), NoiseModel::Auto);
    assert_eq!(processor.active_model(), NoiseModel::RNNoise);
}

#[test]
fn test_model_output_passthrough_on_invalid() {
    // A model frame with a sample that has no finite amplitude recovers to
    // the input, with the score dropped to zero.
    let mut processor = EnhancedAudioProcessor::new(NoiseModel::RNNoise);
    let input: Vec<i64> = vec![100_000, -200_000, 300_000];
    let raw: Vec<Option<i64>> = vec![Some(50_000), None, Some(70_000)];
    let (frame, vad) = processor.resolve_frame(&input, &raw, 900_000, 100);
    assert_eq!(frame, input);
    assert_eq!(vad, 0);
}

#[test]
fn test_model_output_accepted_when_valid() {
    let mut processor = EnhancedAudioProcessor::new(NoiseModel::RNNoise);
    let input: Vec<i64> = vec![100_000, -200_000, 300_000];
    let raw: Vec<Option<i64>> = vec![Some(50_000), Some(-60_000), Some(70_000)];
    let (frame, vad) = processor.resolve_frame(&input, &raw, 900_000, 100);
    assert_eq!(frame, vec![50_000, -60_000, 70_000]);
    assert_eq!(vad, 900_000);
    assert_eq!(processor.get_statistics().total_frames(), 1);
}

#[test]
fn test_frame_size_calculation() {
    assert_eq!(calculate_frame_size_for_sample_rate(48000), 480);
    assert_eq!(calculate_frame_size_for_sample_rate(44100), 441);
    assert_eq!(calculate_frame_size_for_sample_rate(16000), 160);
}

#[test]
fn test_optimal_configuration() {
    assert!(is_optimal_configuration(48000, 480));
    assert!(!is_optimal_configuration(44100, 441));
    assert!(!is_optimal_configuration(48000, 441));
}

#[test]
fn test_configuration_advice() {
    let advice_48k = get_configuration_advice(48000);
    assert!(advice_48k.contains("Optimal"));

    let advice_44k = get_configuration_advice(44100);
    assert!(advice_44k.contains("44.1kHz"));
    assert!(advice_44k.contains("48kHz"));
}

#[test]
fn test_configuration_advice_other_rate() {
    let advice = get_configuration_advice(16000);
    assert!(advice.contains("16000Hz"));
    assert!(advice.contains("48kHz"));
}

#[test]
fn test_frame_adaptation_optimal() {
    let input: Vec<i64> = vec![100_000; 480];
    let mut output: Vec<i64> = Vec::new();

    let result = adapt_frame_for_rnnoise(&input, 48000, &mut output);
    assert!(result.is_ok());
    assert_eq!(output.len(), 480);
    assert_eq!(output, input);
}

#[test]
fn test_frame_adaptation_44khz() {
    let input: Vec<i64> = vec![100_000; 441];
    let mut output: Vec<i64> = Vec::new();

    let result = adapt_frame_for_rnnoise(&input, 44100, &mut output);
    assert!(result.is_ok());
    assert_eq!(output.len(), 480);
    // The first output sample equals the first input sample exactly.
    assert_eq!(output[0], input[0]);
}

#[test]
fn test_frame_adaptation_errors() {
    let mut output: Vec<i64> = Vec::new();
    let wrong_len: Vec<i64> = vec![0; 100];
    let r = adapt_frame_for_rnnoise(&wrong_len, 44100, &mut output);
    assert_eq!(
        r,
        Err(ResampleError::UnexpectedChunkLength { expected: 441, got: 100 })
    );
    let msg = match r {
        Err(e) => e.message(),
        Ok(()) => String::new(),
    };
    assert!(msg.contains("441"));
    assert!(msg.contains("100"));

    let input: Vec<i64> = vec![0; 220];
    let r2 = adapt_frame_for_rnnoise(&input, 22050, &mut output);
    assert_eq!(r2, Err(ResampleError::UnsupportedSampleRate { sample_rate: 22050 }));
    let msg2 = match r2 {
        Err(e) => e.message(),
        Ok(()) => String::new(),
    };
    assert!(msg2.contains("22050"));
}

#[test]
fn test_simple_resampler() {
    let mut resampler = SimpleResampler::new(44100, 48000);
    assert!(resampler.needs_resampling());

    let input: Vec<i64> = vec![100_000; 441];
    let mut output: Vec<i64> = Vec::new();
    resampler.process(&input, &mut output);

    // Should produce approximately 480 samples.
    assert!(output.len() > 470 && output.len() < 490);
    assert_eq!(output.len(), 479);
    // Interpolating between equal samples reproduces them.
    assert!(output.iter().all(|&s| s == 100_000));
}

#[test]
fn test_resampler_identity() {
    let mut resampler = SimpleResampler::new(48000, 48000);
    assert!(!resampler.needs_resampling());
    let input: Vec<i64> = vec![1, 2, 3];
    let mut output: Vec<i64> = Vec::new();
    resampler.process(&input, &mut output);
    assert_eq!(output, input);
}

#[test]
fn test_accumulator_emits_full_frames_in_order() {
    // Chunks totalling an exact multiple of the frame size come back out as
    // frames whose concatenation is exactly the input.
    let mut acc = FrameAccumulator::new(4);
    let chunk1: Vec<i64> = vec![1, 2, 3];
    let chunk2: Vec<i64> = vec![4, 5, 6, 7];
    let chunk3: Vec<i64> = vec![8];
    acc.push(&chunk1);
    acc.push(&chunk2);
    acc.push(&chunk3);
    let frames = drain_frames(&mut acc);
    assert_eq!(frames.len(), 2);
    assert_eq!(frames[0], vec![1, 2, 3, 4]);
    assert_eq!(frames[1], vec![5, 6, 7, 8]);
    assert_eq!(acc.pending_len(), 0);
}

#[test]
fn test_accumulator_never_emits_short_frame() {
    let mut acc = FrameAccumulator::new(480);
    let chunk: Vec<i64> = vec![7; 479];
    acc.push(&chunk);
    assert!(acc.try_take_frame().is_none());
    let tail: Vec<i64> = vec![8];
    acc.push(&tail);
    let frame = acc.try_take_frame().expect("a full frame is available");
    assert_eq!(frame.len(), 480);
    assert_eq!(frame[478], 7);
    assert_eq!(frame[479], 8);
}

#[test]
fn test_downmix_first_channel() {
    let interleaved: Vec<i64> = vec![1, 2, 3, 4];
    assert_eq!(downmix_first_channel(&interleaved, 2), vec![1, 3]);
    let mono: Vec<i64> = vec![5, 6];
    assert_eq!(downmix_first_channel(&mono, 1), vec![5, 6]);
}

#[test]
fn test_output_ring_fill_and_underrun() {
    let mut ring = OutputRing::new();
    let chunk: Vec<i64> = vec![1, 2, 3];
    ring.push_chunk(&chunk);
    // Two frames across two channels: each mono sample is duplicated.
    let filled = ring.fill(2, 2);
    assert_eq!(filled, vec![1, 1, 2, 2]);
    assert_eq!(ring.len(), 1);
    // Underrun emits silence rather than stale data.
    let more = ring.fill(2, 1);
    assert_eq!(more, vec![3, 0]);
    assert_eq!(ring.len(), 0);
}

#[test]
fn test_spectral_gate() {
    let mut gate = SpectralGate::new(48000);
    let mut samples: Vec<i64> = vec![100_000; 480];
    gate.process(&mut samples);

    // Should apply some gating to low-level signal.
    assert!(samples.iter().all(|&s| s <= 100_000));
}

#[test]
fn test_spectral_gate_opens_on_sustained_loud_input() {
    let mut gate = SpectralGate::new(48000);
    let loud: Vec<i64> = vec![100_000; 480];
    let mut previous = gate.current_gate_state();
    let mut frames: usize = 0;
    while gate.current_gate_state() < SCALE && frames < 600 {
        let mut buf = loud.clone();
        gate.process(&mut buf);
        let state = gate.current_gate_state();
        assert!(state > previous, "the gating envelope rises on every loud frame");
        previous = state;
        frames += 1;
    }
    assert_eq!(gate.current_gate_state(), SCALE);
}

#[test]
fn test_spectral_gate_closes_on_sustained_quiet_input() {
    let mut gate = SpectralGate::new(48000);
    // Drive the envelope fully open first.
    let loud: Vec<i64> = vec![100_000; 480];
    let mut frames: usize = 0;
    while gate.current_gate_state() < SCALE && frames < 600 {
        let mut buf = loud.clone();
        gate.process(&mut buf);
        frames += 1;
    }
    // Sustained silence drives the envelope monotonically to fully closed.
    let mut previous = gate.current_gate_state();
    let mut quiet_frames: usize = 0;
    while gate.current_gate_state() > 0 && quiet_frames < 20_000 {
        let mut buf: Vec<i64> = vec![0; 480];
        gate.process(&mut buf);
        let state = gate.current_gate_state();
        assert!(state < previous, "the gating envelope falls on every quiet frame");
        previous = state;
        quiet_frames += 1;
    }
    assert_eq!(gate.current_gate_state(), 0);
}

#[test]
fn test_dynamic_range_processor() {
    let mut processor = DynamicRangeProcessor::new(48000);
    let mut samples: Vec<i64> = vec![800_000; 480];
    processor.process(&mut samples);

    // The envelope follower takes time to build up, so compression sets in
    // only once the envelope crosses the threshold.
    let compressed: Vec<i64> = samples.iter().skip(150).cloned().collect();
    assert!(
        compressed.iter().all(|&s| s < 800_000),
        "Expected all samples after envelope buildup to be compressed below 0.8"
    );
    assert_eq!(samples[0], 800_000);
    assert_eq!(samples[140], 800_000, "the envelope has not yet crossed the threshold");
    assert!(samples[141] < 800_000, "compression has set in");
}

#[test]
fn test_processing_parameters() {
    let params = ProcessingParameters::default();
    assert_eq!(params.sensitivity, 100_000);
    assert!(params.adaptive_mode);
    assert!(params.noise_gate_enabled);
    assert!(params.dynamic_range_enabled);
}

#[test]
fn test_adaptive_gain_interpolates() {
    // A score of 0.9 against a threshold of 0.5 gives a speech confidence
    // of exactly 0.8, and the gain interpolates accordingly.
    let params = GainParameters {
        speech_gain: 800_000,
        noise_gain: 200_000,
        fade_gain: 600_000,
        speech_threshold: 500_000,
    };
    let context = AudioContext {
        voice_probability: 500_000,
        noise_type: NoiseType::Unknown,
        frequency_profile: FrequencyProfile::default(),
        recommended_gain: 200_000,
    };
    let gain = calculate_intelligent_gain(900_000, &context, &params);
    assert_eq!(gain, 680_000);
    assert!(gain >= 20_000 && gain <= SCALE);
    assert!(gain > params.noise_gain);
}

#[test]
fn test_gain_parameter_refinement() {
    // Confident noise halves the noise gain (floored at 0.02).
    let context = AudioContext {
        voice_probability: 100_000,
        noise_type: NoiseType::Keyboard,
        frequency_profile: FrequencyProfile::default(),
        recommended_gain: 200_000,
    };
    let params = determine_processing_parameters(&context);
    assert_eq!(params.noise_gain, 25_000);
    assert_eq!(params.speech_gain, 800_000);
    assert_eq!(params.speech_threshold, 600_000);

    // Confident speech lifts the speech gain, capped at one.
    let speechy = AudioContext {
        voice_probability: 900_000,
        noise_type: NoiseType::Speech,
        frequency_profile: FrequencyProfile::default(),
        recommended_gain: 900_000,
    };
    let refined = determine_processing_parameters(&speechy);
    assert_eq!(refined.speech_gain, 1_000_000);
    assert_eq!(refined.noise_gain, 300_000);
}

#[test]
fn test_select_gain_levels() {
    assert_eq!(select_gain(400_000, false), 100_000);
    assert_eq!(select_gain(600_000, false), 800_000);
    assert_eq!(select_gain(700_000, true), 5_000);
    assert_eq!(select_gain(900_000, true), 980_000);
}

#[test]
fn test_debug_flags() {
    let mut flags = DebugFlags::new();
    assert!(!flags.is_max_test_mode_enabled());
    assert!(!flags.is_pipeline_verification_mode_enabled());
    flags.set_max_test_mode(true);
    assert!(flags.is_max_test_mode_enabled());
    assert!(!flags.is_pipeline_verification_mode_enabled());
    flags.set_pipeline_verification_mode(true);
    assert!(flags.is_pipeline_verification_mode_enabled());
    flags.set_max_test_mode(false);
    assert!(!flags.is_max_test_mode_enabled());
}

#[test]
fn test_advanced_pipeline() {
    // A 0.1-amplitude frame through every stage (the denoising model
    // replaced by an identity response) yields a full frame of bounded
    // samples, a score in range and a noise type from the closed set.
    let mut pipeline = AdvancedNoisePipeline::new(48000, 480, 100_000, NoiseModel::RNNoise);
    let input: Vec<i64> = vec![100_000; 480];

    let (working, context) = pipeline.pre_model_stage(&input, None);
    assert_eq!(working.len(), 480);
    assert!(context.voice_probability >= 0 && context.voice_probability <= SCALE);

    let raw: Vec<Option<i64>> = working.iter().map(|&s| Some(s)).collect();
    let (mut denoised, vad) = pipeline.resolve_model_output(&working, &raw, 750_000, 1_500);
    assert_eq!(denoised.len(), 480);
    assert!(vad >= 0 && vad <= SCALE);

    pipeline.post_model_stage(&mut denoised, &context, vad, 1_500);
    assert_eq!(denoised.len(), 480);
    assert!(denoised.iter().all(|&s| s.abs() <= kwite::MAX_AMP));
    let named = context.noise_type.as_str();
    assert!(
        named == "Silence" || named == "Speech" || named == "Keyboard" || named == "HVAC"
            || named == "Music" || named == "Unknown"
    );
    assert_eq!(pipeline.get_statistics().total_frames(), 1);
    assert_eq!(pipeline.get_model_statistics().total_frames(), 1);
}

#[test]
fn test_pipeline_configure_and_switch() {
    let mut pipeline = AdvancedNoisePipeline::new(48000, 480, 100_000, NoiseModel::Auto);
    assert_eq!(pipeline.current_model(), NoiseModel::Auto);
    pipeline.switch_model(NoiseModel::RNNoise);
    assert_eq!(pipeline.current_model(), NoiseModel::RNNoise);
    pipeline.configure(ProcessingParameters {
        sensitivity: 200_000,
        adaptive_mode: false,
        noise_gate_enabled: false,
        dynamic_range_enabled: false,
    });
    pipeline.update_sensitivity(300_000);

    // With every optional stage off and an identity model response, the
    // simple two-level gain is the only change applied.
    let input: Vec<i64> = vec![100_000; 480];
    let (working, context) = pipeline.pre_model_stage(&input, None);
    assert_eq!(working, input);
    let raw: Vec<Option<i64>> = working.iter().map(|&s| Some(s)).collect();
    let (mut denoised, vad) = pipeline.resolve_model_output(&working, &raw, 900_000, 100);
    pipeline.post_model_stage(&mut denoised, &context, vad, 100);
    // vad 0.9 > 0.5, so the simple gain is 0.8: 0.1 * 0.8 = 0.08.
    assert!(denoised.iter().all(|&s| s == 80_000));
}

#[test]
fn test_fade_partial_frame() {
    let tail: Vec<i64> = vec![1_000_000, 1_000_000];
    let faded = kwite::pipeline::fade_partial_frame(&tail, 500_000);
    assert_eq!(faded, vec![500_000, 250_000]);
}

#[test]
fn test_enhanced_processor_frame_size_reporting() {
    let processor = EnhancedAudioProcessor::new(NoiseModel::RNNoise);
    assert_eq!(processor.current_frame_size(), 480);
    let auto = EnhancedAudioProcessor::new(NoiseModel::Auto);
    assert_eq!(auto.current_frame_size(), 480);
}

#[test]
fn test_frame_buffering_with_variable_chunks() {
    // Variable-length captured chunks never reach the model directly: the
    // accumulator hands out only complete frames.
    let mut acc = FrameAccumulator::new(480);
    let chunks: Vec<Vec<i64>> = vec![
        vec![100_000; 256],
        vec![200_000; 512],
        vec![300_000; 128],
        vec![400_000; 400],
        vec![500_000; 200],
    ];
    let mut complete_frames: usize = 0;
    for chunk in &chunks {
        acc.push(chunk);
        for frame in drain_frames(&mut acc) {
            assert_eq!(frame.len(), 480);
            complete_frames += 1;
        }
    }
    // 1496 samples in total: three full frames and a 56-sample remainder.
    assert_eq!(complete_frames, 3);
    assert_eq!(acc.pending_len(), 56);
}

#[test]
fn test_advanced_pipeline_with_webrtc() {
    // The full orchestrator with the advanced detector as the primary
    // voice-activity source.
    let mut pipeline =
        AdvancedNoisePipeline::new_with_webrtc(48000, 480, 100_000, NoiseModel::Auto);
    assert_eq!(pipeline.current_model(), NoiseModel::Auto);
    let input: Vec<i64> = (0..480).map(|i| if i % 2 == 0 { 100_000 } else { -100_000 }).collect();
    let (working, context) = pipeline.pre_model_stage(&input, None);
    let raw: Vec<Option<i64>> = working.iter().map(|&s| Some(s)).collect();
    let (mut denoised, vad) = pipeline.resolve_model_output(&working, &raw, 600_000, 900);
    pipeline.post_model_stage(&mut denoised, &context, vad, 900);
    assert_eq!(denoised.len(), 480);
    assert!(context.voice_probability >= 0 && context.voice_probability <= SCALE);
    pipeline.update_sensitivity(250_000);
    assert_eq!(pipeline.frames_processed(), 1);
}
