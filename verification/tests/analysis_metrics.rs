//! Context analysis, classification and the rolling metrics collector.

use kwite::SCALE;
use kwite::ai_metrics::{AiMetrics, AiStatus};
use kwite::analysis::{
    AudioAnalyzer, FrequencyProfile, NoiseType, SpectralAnalyzer, VoiceActivityDetector,
    WebRtcVoiceDetector,
};

#[test]
fn test_vad_creation() {
    let mut vad = VoiceActivityDetector::new(48000, 500_000);
    let quiet: Vec<i64> = vec![0; 480];
    let p = vad.detect(&quiet);
    // A silent frame votes 0.2, and a single vote is its own average.
    assert_eq!(p, 200_000);
}

#[test]
fn test_vad_smoothing_over_ten_votes() {
    let mut vad = VoiceActivityDetector::new(48000, 500_000);
    let loud: Vec<i64> = vec![100_000; 480];
    let quiet: Vec<i64> = vec![0; 480];
    let mut last: i64 = 0;
    for _ in 0..5 {
        last = vad.detect(&loud);
    }
    assert_eq!(last, 800_000);
    for _ in 0..5 {
        last = vad.detect(&quiet);
    }
    // Five 0.8 votes and five 0.2 votes average to exactly 0.5.
    assert_eq!(last, 500_000);
}

#[test]
fn test_webrtc_detector_reports_probability() {
    let mut vad = WebRtcVoiceDetector::new(100_000);
    let frame: Vec<i64> = (0..480).map(|i| if i % 2 == 0 { 300_000 } else { -300_000 }).collect();
    let p = vad.detect(&frame);
    // A single vote is either 0.9 or 0.1, whatever the detector decided.
    assert!(p == 900_000 || p == 100_000);
}

#[test]
fn test_spectral_analyzer() {
    let analyzer = SpectralAnalyzer::new(480, 48000);
    let test_samples: Vec<i64> = vec![0; 480];
    let profile = analyzer.analyze(&test_samples);

    // Should detect silence.
    assert!(profile.total_energy < 100_000);
}

#[test]
fn test_spectral_features_from_magnitudes() {
    let analyzer = SpectralAnalyzer::new(480, 48000);
    // All energy in the first (lowest) bin.
    let mut magnitudes: Vec<i64> = vec![0; 240];
    magnitudes[0] = 1_000_000;
    let profile = analyzer.analyze_magnitudes(&magnitudes);
    assert_eq!(profile.total_energy, 1_000_000);
    assert_eq!(profile.low_freq_ratio, 1_000_000);
    assert_eq!(profile.mid_freq_ratio, 0);
    assert_eq!(profile.high_freq_ratio, 0);
    assert_eq!(profile.spectral_centroid, 0);
    assert_eq!(profile.spectral_rolloff, 0);
}

#[test]
fn test_spectral_rolloff_tracks_energy() {
    let analyzer = SpectralAnalyzer::new(480, 48000);
    // All energy in bin 120: half the Nyquist band, 12 kHz.
    let mut magnitudes: Vec<i64> = vec![0; 240];
    magnitudes[120] = 1_000_000;
    let profile = analyzer.analyze_magnitudes(&magnitudes);
    assert_eq!(profile.spectral_centroid, 12_000);
    assert_eq!(profile.spectral_rolloff, 12_000);
    assert_eq!(profile.mid_freq_ratio, 1_000_000);
}

#[test]
fn test_audio_analyzer() {
    let mut analyzer = AudioAnalyzer::new(48000, 480, 500_000);
    let samples: Vec<i64> = vec![0; 480];
    let context = analyzer.analyze_audio_context(&samples, None);
    assert!(context.voice_probability >= 0 && context.voice_probability <= SCALE);
    assert_eq!(analyzer.get_context_history().len(), 1);
}

#[test]
fn test_noise_type_classification() {
    let freq_profile = FrequencyProfile {
        total_energy: 500_000,
        low_freq_ratio: 700_000,
        mid_freq_ratio: 200_000,
        high_freq_ratio: 100_000,
        spectral_centroid: 300,
        spectral_rolloff: 400,
    };

    let analyzer = AudioAnalyzer::new(48000, 480, 500_000);
    let noise_type = analyzer.classify_noise_type(100_000, &freq_profile);
    assert_eq!(noise_type, NoiseType::HVAC);
}

#[test]
fn test_classification_priority_order() {
    let analyzer = AudioAnalyzer::new(48000, 480, 500_000);
    let mut profile = FrequencyProfile {
        total_energy: 500,
        low_freq_ratio: 700_000,
        mid_freq_ratio: 200_000,
        high_freq_ratio: 100_000,
        spectral_centroid: 300,
        spectral_rolloff: 400,
    };
    // Near-zero energy wins over everything.
    assert_eq!(analyzer.classify_noise_type(900_000, &profile), NoiseType::Silence);
    profile.total_energy = 500_000;
    // A confident voice vote wins next.
    assert_eq!(analyzer.classify_noise_type(800_000, &profile), NoiseType::Speech);
    // Bright high-band energy marks a keyboard.
    let keyboard = FrequencyProfile {
        total_energy: 500_000,
        low_freq_ratio: 200_000,
        mid_freq_ratio: 300_000,
        high_freq_ratio: 500_000,
        spectral_centroid: 3_000,
        spectral_rolloff: 6_000,
    };
    assert_eq!(analyzer.classify_noise_type(100_000, &keyboard), NoiseType::Keyboard);
    // Mid-band energy with a bright centroid is music.
    let music = FrequencyProfile {
        total_energy: 500_000,
        low_freq_ratio: 300_000,
        mid_freq_ratio: 500_000,
        high_freq_ratio: 200_000,
        spectral_centroid: 1_500,
        spectral_rolloff: 3_000,
    };
    assert_eq!(analyzer.classify_noise_type(100_000, &music), NoiseType::Music);
    // Nothing matching falls through to unknown.
    let flat = FrequencyProfile {
        total_energy: 500_000,
        low_freq_ratio: 340_000,
        mid_freq_ratio: 330_000,
        high_freq_ratio: 330_000,
        spectral_centroid: 900,
        spectral_rolloff: 600,
    };
    assert_eq!(analyzer.classify_noise_type(100_000, &flat), NoiseType::Unknown);
}

#[test]
fn test_recommended_gain_per_type() {
    let analyzer = AudioAnalyzer::new(48000, 480, 500_000);
    let profile = FrequencyProfile::default();
    assert_eq!(analyzer.calculate_recommended_gain(0, &NoiseType::Silence, &profile), 100_000);
    assert_eq!(analyzer.calculate_recommended_gain(0, &NoiseType::Speech, &profile), 900_000);
    assert_eq!(analyzer.calculate_recommended_gain(0, &NoiseType::Keyboard, &profile), 200_000);
    assert_eq!(analyzer.calculate_recommended_gain(0, &NoiseType::HVAC, &profile), 150_000);
    assert_eq!(analyzer.calculate_recommended_gain(0, &NoiseType::Music, &profile), 600_000);
    assert_eq!(
        analyzer.calculate_recommended_gain(600_000, &NoiseType::Unknown, &profile),
        800_000
    );
    assert_eq!(
        analyzer.calculate_recommended_gain(400_000, &NoiseType::Unknown, &profile),
        200_000
    );
}

#[test]
fn test_noise_type_names() {
    assert_eq!(NoiseType::Silence.as_str(), "Silence");
    assert_eq!(NoiseType::Speech.as_str(), "Speech");
    assert_eq!(NoiseType::Keyboard.as_str(), "Keyboard");
    assert_eq!(NoiseType::HVAC.as_str(), "HVAC");
    assert_eq!(NoiseType::Music.as_str(), "Music");
    assert_eq!(NoiseType::Unknown.as_str(), "Unknown");
}

#[test]
fn test_ai_metrics_basic() {
    let metrics = AiMetrics::new();
    assert_eq!(metrics.total_frames, 0);
    assert_eq!(metrics.avg_vad_score, 0);
}

#[test]
fn test_record_frame() {
    let mut metrics = AiMetrics::new();
    metrics.record_frame(800_000, 5000);

    assert_eq!(metrics.total_frames, 1);
    assert_eq!(metrics.avg_vad_score, 800_000);
    assert_eq!(metrics.avg_latency_us, 5000);
}

#[test]
fn test_vad_averaging() {
    let mut metrics = AiMetrics::new();
    metrics.record_frame(900_000, 1000);
    metrics.record_frame(700_000, 1000);
    metrics.record_frame(800_000, 1000);

    assert_eq!(metrics.total_frames, 3);
    assert_eq!(metrics.avg_vad_score, 800_000);
}

#[test]
fn test_rolling_window_keeps_last_hundred() {
    // After 101 frames, the averages reflect exactly the most recent 100.
    let mut metrics = AiMetrics::new();
    metrics.record_frame(0, 7);
    for _ in 0..100 {
        metrics.record_frame(1_000_000, 250);
    }
    assert_eq!(metrics.total_frames, 101);
    assert_eq!(metrics.vad_scores.len(), 100);
    assert_eq!(metrics.processing_latencies.len(), 100);
    // The first frame's score and latency have been evicted.
    assert_eq!(metrics.avg_vad_score, 1_000_000);
    assert_eq!(metrics.avg_latency_us, 250);
}

#[test]
fn test_performance_summary() {
    let mut metrics = AiMetrics::new();
    metrics.record_frame(900_000, 5000);

    let summary = metrics.get_performance_summary();
    assert_eq!(summary.avg_vad_score, 900_000);
    assert_eq!(summary.avg_latency_ms, 5);
    assert_eq!(summary.frames_processed, 1);
}

#[test]
fn test_ai_status_classification() {
    let mut metrics = AiMetrics::new();

    // Consistent high scores give high confidence.
    for _ in 0..20 {
        metrics.record_frame(900_000, 1000);
    }

    let summary = metrics.get_performance_summary();
    assert!(matches!(summary.ai_status, AiStatus::Excellent | AiStatus::Good));
}

#[test]
fn test_ai_status_labels() {
    assert_eq!(AiStatus::Excellent.as_str(), "Excellent");
    assert_eq!(AiStatus::Good.as_str(), "Good");
    assert_eq!(AiStatus::Fair.as_str(), "Fair");
    assert_eq!(AiStatus::Poor.as_str(), "Poor");
    assert_eq!(AiStatus::Excellent.color(), (0, 255, 0));
    assert_eq!(AiStatus::Good.color(), (128, 128, 128));
    assert_eq!(AiStatus::Fair.color(), (255, 165, 0));
    assert_eq!(AiStatus::Poor.color(), (255, 0, 0));
}

#[test]
fn test_noise_reduction_estimate() {
    let mut metrics = AiMetrics::new();
    // Only noise frames: a strong reduction estimate.
    metrics.record_frame(100_000, 10);
    metrics.record_frame(200_000, 10);
    assert_eq!(metrics.noise_reduction_percent, 75 * SCALE);
    // A mix of noise and speech: the noise share of the window, in percent.
    metrics.record_frame(900_000, 10);
    metrics.record_frame(900_000, 10);
    // 2 noise frames out of 4: 50%.
    assert_eq!(metrics.noise_reduction_percent, 50 * SCALE);
}

#[test]
fn test_metrics_update_and_reset() {
    let mut metrics = AiMetrics::new();
    metrics.update_vad_score(600_000);
    assert_eq!(metrics.total_frames, 1);
    assert_eq!(metrics.avg_vad_score, 600_000);
    metrics.update_noise_type(NoiseType::Music);
    assert_eq!(metrics.current_noise_type, NoiseType::Music);
    metrics.update_confidence(2_000_000);
    assert_eq!(metrics.model_confidence, SCALE);
    metrics.reset();
    assert_eq!(metrics.total_frames, 0);
    assert_eq!(metrics.current_noise_type, NoiseType::Unknown);
}

#[test]
fn test_calculate_fps() {
    let metrics = AiMetrics::new();
    assert_eq!(metrics.calculate_fps(), 100);
    let mut busy = AiMetrics::new();
    busy.record_frame(500_000, 10_000);
    assert_eq!(busy.calculate_fps(), 100);
    let mut slow = AiMetrics::new();
    slow.record_frame(500_000, 20_000);
    assert_eq!(slow.calculate_fps(), 50);
}

#[test]
fn test_vad_score_range() {
    let mut metrics = AiMetrics::new();

    metrics.record_frame(0, 1000);  // Pure noise
    metrics.record_frame(500_000, 1000);  // Mixed
    metrics.record_frame(1_000_000, 1000);  // Pure speech

    assert!(metrics.avg_vad_score >= 0 && metrics.avg_vad_score <= SCALE);

    let summary = metrics.get_performance_summary();
    assert!(summary.avg_vad_score >= 0 && summary.avg_vad_score <= SCALE);
    assert!(summary.model_confidence >= 0 && summary.model_confidence <= SCALE);
}

#[test]
fn test_ai_model_confidence() {
    let mut metrics = AiMetrics::new();

    // Consistent scores give high confidence.
    for _ in 0..20 {
        metrics.record_frame(900_000, 1000);
    }
    let summary = metrics.get_performance_summary();
    assert!(matches!(summary.ai_status, AiStatus::Excellent | AiStatus::Good));

    // Alternating extremes give lower confidence.
    let mut inconsistent = AiMetrics::new();
    for i in 0..20 {
        let vad: i64 = if i % 2 == 0 { 100_000 } else { 900_000 };
        inconsistent.record_frame(vad, 1000);
    }
    let inconsistent_summary = inconsistent.get_performance_summary();
    assert!(inconsistent_summary.model_confidence < summary.model_confidence);
}

#[test]
fn test_analyzer_with_webrtc_primary() {
    // With the advanced detector wired in, analysis still yields a score in
    // range, classifies from the closed set, and records the context.
    let mut analyzer = AudioAnalyzer::new_with_webrtc(48000, 480, 100_000);
    let frame: Vec<i64> = (0..480).map(|i| if i % 2 == 0 { 300_000 } else { -300_000 }).collect();
    let context = analyzer.analyze_audio_context(&frame, None);
    // A single advanced vote averages to itself: 0.9 or 0.1.
    assert!(context.voice_probability == 900_000 || context.voice_probability == 100_000);
    assert_eq!(analyzer.get_context_history().len(), 1);
    // Sensitivity updates reach both detectors without touching histories.
    analyzer.set_sensitivity(200_000);
    let second = analyzer.analyze_audio_context(&frame, None);
    assert!(second.voice_probability >= 0 && second.voice_probability <= SCALE);
    assert_eq!(analyzer.get_context_history().len(), 2);
}
