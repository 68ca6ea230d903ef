//! Rolling performance metrics for the denoising pipeline: voice-activity
//! scores and per-frame latencies over the most recent hundred frames,
//! with derived confidence and status indicators.

use vstd::prelude::*;
use crate::SCALE;
use crate::analysis::{spec_sum, AudioContext, NoiseType};
use crate::fixed::{isqrt, lemma_isqrt_unique, spec_isqrt};

verus! {

/// A rolling window: push one value, evicting the oldest once a hundred
/// values are held.
pub open spec fn spec_window_after<T>(window: Seq<T>, value: T) -> Seq<T> {
    let pushed = window.push(value);
    if pushed.len() > 100 {
        pushed.skip(pushed.len() - 100)
    } else {
        pushed
    }
}

/// Sum of a sequence of recorded latencies.
pub open spec fn spec_sum_u64(s: Seq<u64>) -> int
    decreases s.len(),
{
    if s.len() == 0 {
        0
    } else {
        spec_sum_u64(s.drop_last()) + s.last()
    }
}

/// Sum of squared deviations of the scores from a mean.
pub open spec fn spec_deviation_sq_sum(s: Seq<i64>, mean: int) -> int
    decreases s.len(),
{
    if s.len() == 0 {
        0
    } else {
        spec_deviation_sq_sum(s.drop_last(), mean) + (s.last() - mean) * (s.last() - mean)
    }
}

/// Model confidence from the score window: one minus the standard
/// deviation of the recent scores, floored at zero — steadier decisions
/// mean higher confidence.
pub open spec fn spec_confidence(scores: Seq<i64>, mean: int) -> int {
    let sd = spec_isqrt(spec_deviation_sq_sum(scores, mean) / (scores.len() as int));
    if sd > SCALE as int {
        0
    } else {
        SCALE as int - sd
    }
}

/// How many scores in the window count as noise (below 0.5).
pub open spec fn spec_noise_count(scores: Seq<i64>) -> int
    decreases scores.len(),
{
    if scores.len() == 0 {
        0
    } else {
        spec_noise_count(scores.drop_last()) + if scores.last() < 500_000 {
            1int
        } else {
            0int
        }
    }
}

/// The noise-reduction estimate (fixed-point percent): the share of noise
/// frames when both kinds occur (at least 10%), 75% when only noise is
/// seen, 20% while frames flow without a noise/speech mix.
pub open spec fn spec_noise_reduction(scores: Seq<i64>, total_frames: int) -> int {
    let noise = spec_noise_count(scores);
    let speech = scores.len() as int - noise;
    if noise > 0 && speech > 0 {
        let effectiveness = (noise * 100 * (SCALE as int)) / (scores.len() as int);
        if effectiveness > 10 * (SCALE as int) {
            effectiveness
        } else {
            10 * (SCALE as int)
        }
    } else if noise > 0 {
        75 * (SCALE as int)
    } else if total_frames > 0 {
        20 * (SCALE as int)
    } else {
        0
    }
}

/// Real-time metrics collector.
///
/// Scores and probabilities are fixed point (`SCALE` per 1.0); latencies
/// are microseconds, recorded values clipped to one second; the noise
/// reduction estimate is a fixed-point percentage.
pub struct AiMetrics {
    /// Voice-activity scores of the last hundred frames, oldest first.
    pub vad_scores: Vec<i64>,
    /// Processing latencies of the last hundred frames, in microseconds.
    pub processing_latencies: Vec<u64>,
    /// Average score over the window.
    pub avg_vad_score: i64,
    /// Average latency over the window, in microseconds.
    pub avg_latency_us: u64,
    /// Largest latency ever recorded, in microseconds.
    pub peak_latency_us: u64,
    /// Frames recorded since start (or the last reset).
    pub total_frames: u64,
    /// Confidence in the model's decisions.
    pub model_confidence: i64,
    /// Estimated noise reduction (fixed-point percent).
    pub noise_reduction_percent: i64,
    /// The most recently detected noise type.
    pub current_noise_type: NoiseType,
    /// Confidence of the environmental adaptation.
    pub adaptation_confidence: i64,
}

impl AiMetrics {
    pub open spec fn wf(&self) -> bool {
        &&& self.vad_scores@.len() <= 100
        &&& self.processing_latencies@.len() <= 100
        &&& forall|i: int|
            0 <= i < self.vad_scores@.len() ==> 0 <= #[trigger] self.vad_scores@[i] <= SCALE
        &&& forall|i: int|
            0 <= i < self.processing_latencies@.len() ==> #[trigger] self.processing_latencies@[i]
                <= 1_000_000_000
        &&& self.total_frames <= 0x1000_0000_0000_0000
        &&& 0 <= self.model_confidence <= SCALE
        &&& 0 <= self.avg_vad_score <= SCALE
        &&& self.peak_latency_us <= 1_000_000_000
    }

    /// A fresh collector with empty windows.
    pub fn new() -> (r: AiMetrics)
        ensures
            r.wf(),
            r.vad_scores@ =~= Seq::<i64>::empty(),
            r.processing_latencies@ =~= Seq::<u64>::empty(),
            r.total_frames == 0,
            r.avg_vad_score == 0,
            r.avg_latency_us == 0,
            r.peak_latency_us == 0,
            r.model_confidence == 0,
            r.noise_reduction_percent == 0,
            r.current_noise_type == NoiseType::Unknown,
            r.adaptation_confidence == 0,
    {
        AiMetrics {
            vad_scores: Vec::new(),
            processing_latencies: Vec::new(),
            avg_vad_score: 0,
            avg_latency_us: 0,
            peak_latency_us: 0,
            total_frames: 0,
            model_confidence: 0,
            noise_reduction_percent: 0,
            current_noise_type: NoiseType::Unknown,
            adaptation_confidence: 0,
        }
    }

    /// Record one processed frame.
    ///
    /// Both windows roll: the new score and latency are appended and the
    /// oldest entries evicted past one hundred, so every average reflects
    /// exactly the most recent hundred frames.
    pub fn record_frame(&mut self, vad_score: i64, processing_us: u64)
        requires
            old(self).wf(),
            0 <= vad_score <= SCALE,
            old(self).total_frames < 0x1000_0000_0000_0000,
        ensures
            final(self).wf(),
            final(self).vad_scores@ =~= spec_window_after(old(self).vad_scores@, vad_score),
            final(self).processing_latencies@ =~= spec_window_after(
                old(self).processing_latencies@,
                if processing_us > 1_000_000_000 {
                    1_000_000_000u64
                } else {
                    processing_us
                },
            ),
            final(self).total_frames == old(self).total_frames + 1,
            final(self).avg_vad_score == spec_sum(final(self).vad_scores@)
                / (final(self).vad_scores@.len() as int),
            final(self).avg_latency_us == spec_sum_u64(final(self).processing_latencies@) / (
            final(self).processing_latencies@.len() as int),
            final(self).peak_latency_us as int == (if (if processing_us > 1_000_000_000 {
                1_000_000_000int
            } else {
                processing_us as int
            }) > old(self).peak_latency_us as int {
                if processing_us > 1_000_000_000 {
                    1_000_000_000int
                } else {
                    processing_us as int
                }
            } else {
                old(self).peak_latency_us as int
            }),
            final(self).vad_scores@.len() >= 10 ==> final(self).model_confidence
                == spec_confidence(final(self).vad_scores@, final(self).avg_vad_score as int),
            final(self).vad_scores@.len() < 10 ==> final(self).model_confidence
                == old(self).model_confidence,
            final(self).noise_reduction_percent == spec_noise_reduction(
                final(self).vad_scores@,
                final(self).total_frames as int,
            ),
            final(self).current_noise_type == old(self).current_noise_type,
            final(self).adaptation_confidence == old(self).adaptation_confidence,
    {
        let latency = if processing_us > 1_000_000_000 {
            1_000_000_000
        } else {
            processing_us
        };
        self.vad_scores.push(vad_score);
        if self.vad_scores.len() > 100 {
            self.vad_scores.remove(0);
        }
        proof {
            assert(self.vad_scores@ =~= spec_window_after(old(self).vad_scores@, vad_score));
        }
        self.processing_latencies.push(latency);
        if self.processing_latencies.len() > 100 {
            self.processing_latencies.remove(0);
        }
        proof {
            assert(self.processing_latencies@ =~= spec_window_after(
                old(self).processing_latencies@,
                latency,
            ));
        }
        self.total_frames = self.total_frames + 1;
        if latency > self.peak_latency_us {
            self.peak_latency_us = latency;
        }
        self.update_averages();
    }

    /// Recompute the derived aggregates from the current windows.
    #[verifier::loop_isolation(false)]
    fn update_averages(&mut self)
        requires
            old(self).wf(),
            old(self).vad_scores@.len() >= 1,
            old(self).processing_latencies@.len() >= 1,
        ensures
            final(self).wf(),
            final(self).vad_scores@ == old(self).vad_scores@,
            final(self).processing_latencies@ == old(self).processing_latencies@,
            final(self).total_frames == old(self).total_frames,
            final(self).peak_latency_us == old(self).peak_latency_us,
            final(self).current_noise_type == old(self).current_noise_type,
            final(self).adaptation_confidence == old(self).adaptation_confidence,
            final(self).avg_vad_score == spec_sum(old(self).vad_scores@)
                / (old(self).vad_scores@.len() as int),
            final(self).avg_latency_us == spec_sum_u64(old(self).processing_latencies@)
                / (old(self).processing_latencies@.len() as int),
            old(self).vad_scores@.len() >= 10 ==> final(self).model_confidence == spec_confidence(
                old(self).vad_scores@,
                final(self).avg_vad_score as int,
            ),
            old(self).vad_scores@.len() < 10 ==> final(self).model_confidence
                == old(self).model_confidence,
            final(self).noise_reduction_percent == spec_noise_reduction(
                old(self).vad_scores@,
                old(self).total_frames as int,
            ),
    {
        let scores_len = self.vad_scores.len();
        let mut sum: i64 = 0;
        let mut i: usize = 0;
        while i < scores_len
            invariant
                i <= old(self).vad_scores@.len(),
                scores_len == old(self).vad_scores@.len(),
                self == old(self),
                sum == spec_sum(old(self).vad_scores@.subrange(0, i as int)),
                0 <= sum <= i * SCALE,
            decreases scores_len - i,
        {
            proof {
                assert(old(self).vad_scores@.subrange(0, i + 1 as int).drop_last() =~= old(self).vad_scores@.subrange(0, i as int));
            }
            sum = sum + self.vad_scores[i];
            i = i + 1;
        }
        proof {
            assert(old(self).vad_scores@.subrange(0, scores_len as int) =~= old(self).vad_scores@);
        }
        proof {
            assert(0 <= (sum as int) / (scores_len as int) <= SCALE as int) by (nonlinear_arith)
                requires
                    0 <= sum as int <= (scores_len as int) * (SCALE as int),
                    1 <= scores_len <= 100,
            ;
        }
        self.avg_vad_score = sum / (scores_len as i64);

        let lat_len = self.processing_latencies.len();
        let mut lat_sum: u64 = 0;
        let mut j: usize = 0;
        while j < lat_len
            invariant
                j <= old(self).processing_latencies@.len(),
                lat_len == old(self).processing_latencies@.len(),
                self.processing_latencies@ == old(self).processing_latencies@,
                lat_sum == spec_sum_u64(old(self).processing_latencies@.subrange(0, j as int)),
                lat_sum <= j * 1_000_000_000,
            decreases lat_len - j,
        {
            proof {
                assert(old(self).processing_latencies@.subrange(0, j + 1 as int).drop_last()
                    =~= old(self).processing_latencies@.subrange(0, j as int));
            }
            lat_sum = lat_sum + self.processing_latencies[j];
            j = j + 1;
        }
        proof {
            assert(old(self).processing_latencies@.subrange(0, lat_len as int) =~= old(self).processing_latencies@);
        }
        self.avg_latency_us = lat_sum / (lat_len as u64);

        if scores_len >= 10 {
            let mean = self.avg_vad_score;
            let mut dev_sum: u64 = 0;
            let mut k: usize = 0;
            while k < scores_len
                invariant
                    k <= old(self).vad_scores@.len(),
                    scores_len == old(self).vad_scores@.len(),
                    self.vad_scores@ == old(self).vad_scores@,
                    0 <= mean <= SCALE,
                    dev_sum == spec_deviation_sq_sum(
                        old(self).vad_scores@.subrange(0, k as int),
                        mean as int,
                    ),
                    dev_sum <= k * 1_000_000_000_000,
                decreases scores_len - k,
            {
                let d = self.vad_scores[k] - mean;
                proof {
                    assert(0 <= (d as int) * (d as int) <= 1_000_000_000_000) by (nonlinear_arith)
                        requires
                            -SCALE as int <= d as int <= SCALE as int,
                    ;
                    assert(old(self).vad_scores@.subrange(0, k + 1 as int).drop_last()
                        =~= old(self).vad_scores@.subrange(0, k as int));
                }
                dev_sum = dev_sum + ((d * d) as u64);
                k = k + 1;
            }
            proof {
                assert(old(self).vad_scores@.subrange(0, scores_len as int)
                    =~= old(self).vad_scores@);
            }
            let variance = dev_sum / (scores_len as u64);
            let sd = isqrt(variance);
            proof {
                lemma_isqrt_unique(variance as int, sd as int);
            }
            self.model_confidence = if sd > (SCALE as u64) {
                0
            } else {
                SCALE - (sd as i64)
            };
        }

        let mut noise_frames: usize = 0;
        let mut m: usize = 0;
        while m < scores_len
            invariant
                m <= old(self).vad_scores@.len(),
                scores_len == old(self).vad_scores@.len(),
                self.vad_scores@ == old(self).vad_scores@,
                noise_frames == spec_noise_count(old(self).vad_scores@.subrange(0, m as int)),
                noise_frames <= m,
            decreases scores_len - m,
        {
            proof {
                assert(old(self).vad_scores@.subrange(0, m + 1 as int).drop_last() =~= old(self).vad_scores@.subrange(0, m as int));
            }
            if self.vad_scores[m] < 500_000 {
                noise_frames = noise_frames + 1;
            }
            m = m + 1;
        }
        proof {
            assert(old(self).vad_scores@.subrange(0, scores_len as int) =~= old(self).vad_scores@);
        }
        let speech_frames = scores_len - noise_frames;
        if noise_frames > 0 && speech_frames > 0 {
            proof {
                assert(0 <= ((noise_frames as int) * 100 * (SCALE as int)) / (scores_len as int)
                    <= 100 * SCALE as int) by (nonlinear_arith)
                    requires
                        0 < noise_frames <= scores_len,
                        1 <= scores_len <= 100,
                ;
            }
            let effectiveness = ((noise_frames as i64) * 100 * SCALE) / (scores_len as i64);
            self.noise_reduction_percent = if effectiveness > 10 * SCALE {
                effectiveness
            } else {
                10 * SCALE
            };
        } else if noise_frames > 0 {
            self.noise_reduction_percent = 75 * SCALE;
        } else if self.total_frames > 0 {
            self.noise_reduction_percent = 20 * SCALE;
        } else {
            self.noise_reduction_percent = 0;
        }
    }

    /// Estimated frames per second from the average latency; the nominal
    /// hundred 10 ms frames per second when nothing was measured yet.
    pub fn calculate_fps(&self) -> (r: u32)
        ensures
            self.avg_latency_us == 0 ==> r == 100,
            self.avg_latency_us > 0 ==> r as int == 1_000_000int / (self.avg_latency_us as int),
    {
        if self.avg_latency_us > 0 {
            proof {
                assert(1_000_000int / (self.avg_latency_us as int) <= 1_000_000)
                    by (nonlinear_arith)
                    requires
                        self.avg_latency_us >= 1,
                ;
            }
            (1_000_000u64 / self.avg_latency_us) as u32
        } else {
            100
        }
    }

    /// The adaptation confidence derived from a context: the spectral
    /// centroid relative to the frame's energy, capped at one and rounded
    /// to two decimal places.
    pub open spec fn spec_adaptation_confidence(context: AudioContext) -> int {
        let consistency = ((context.frequency_profile.spectral_centroid as int) * (SCALE as int)
            * (SCALE as int)) / (context.frequency_profile.total_energy as int + SCALE as int);
        let capped = if consistency > SCALE as int {
            SCALE as int
        } else {
            consistency
        };
        ((capped + 5_000) / 10_000) * 10_000
    }

    /// The confidence the environment itself contributes for a noise type.
    pub open spec fn spec_environmental_factor(t: NoiseType) -> int {
        match t {
            NoiseType::Speech => 900_000,
            NoiseType::Keyboard => 850_000,
            NoiseType::HVAC => 800_000,
            NoiseType::Music => 600_000,
            NoiseType::Silence => 950_000,
            NoiseType::Unknown => 500_000,
        }
    }

    /// Blend environmental awareness into the metrics: remember the noise
    /// type, derive the adaptation confidence, and mix the environmental
    /// factor into the model confidence (seventy/thirty).
    pub fn update_environmental_analysis(&mut self, context: &AudioContext)
        requires
            old(self).wf(),
            0 <= context.frequency_profile.total_energy <= 10_000_000_000_000,
            0 <= context.frequency_profile.spectral_centroid <= 1_000_000,
        ensures
            final(self).wf(),
            final(self).current_noise_type == context.noise_type,
            final(self).adaptation_confidence == Self::spec_adaptation_confidence(*context),
            final(self).model_confidence == (7 * old(self).model_confidence
                + 3 * Self::spec_environmental_factor(context.noise_type)) / 10,
            final(self).vad_scores@ == old(self).vad_scores@,
            final(self).processing_latencies@ == old(self).processing_latencies@,
            final(self).total_frames == old(self).total_frames,
    {
        self.current_noise_type = context.noise_type;
        proof {
            assert(0 <= ((context.frequency_profile.spectral_centroid as int) * (SCALE as int) * (
            SCALE as int)) / (context.frequency_profile.total_energy as int + SCALE as int)
                <= 1_000_000_000_000_000_000) by (nonlinear_arith)
                requires
                    0 <= context.frequency_profile.spectral_centroid <= 1_000_000,
                    0 <= context.frequency_profile.total_energy,
            ;
        }
        let consistency = ((context.frequency_profile.spectral_centroid * SCALE) * SCALE) / (
        context.frequency_profile.total_energy + SCALE);
        let capped = if consistency > SCALE {
            SCALE
        } else {
            consistency
        };
        self.adaptation_confidence = ((capped + 5_000) / 10_000) * 10_000;
        let environmental_factor: i64 = match context.noise_type {
            NoiseType::Speech => 900_000,
            NoiseType::Keyboard => 850_000,
            NoiseType::HVAC => 800_000,
            NoiseType::Music => 600_000,
            NoiseType::Silence => 950_000,
            NoiseType::Unknown => 500_000,
        };
        self.model_confidence = (7 * self.model_confidence + 3 * environmental_factor) / 10;
    }

    /// Remember the most recently detected noise type.
    pub fn update_noise_type(&mut self, noise_type: NoiseType)
        requires
            old(self).wf(),
        ensures
            final(self).wf(),
            final(self).current_noise_type == noise_type,
            final(self).vad_scores@ == old(self).vad_scores@,
            final(self).total_frames == old(self).total_frames,
            final(self).model_confidence == old(self).model_confidence,
    {
        self.current_noise_type = noise_type;
    }

    /// Record one score without a latency measurement: the score window
    /// rolls and its running average is refreshed.
    pub fn update_vad_score(&mut self, vad_score: i64)
        requires
            old(self).wf(),
            0 <= vad_score <= SCALE,
            old(self).total_frames < 0x1000_0000_0000_0000,
        ensures
            final(self).wf(),
            final(self).vad_scores@ =~= spec_window_after(old(self).vad_scores@, vad_score),
            final(self).avg_vad_score == spec_sum(final(self).vad_scores@)
                / (final(self).vad_scores@.len() as int),
            final(self).total_frames == old(self).total_frames + 1,
            final(self).processing_latencies@ == old(self).processing_latencies@,
            final(self).peak_latency_us == old(self).peak_latency_us,
    {
        self.vad_scores.push(vad_score);
        if self.vad_scores.len() > 100 {
            self.vad_scores.remove(0);
        }
        proof {
            assert(self.vad_scores@ =~= spec_window_after(old(self).vad_scores@, vad_score));
        }
        let ghost window = self.vad_scores@;
        let scores_len = self.vad_scores.len();
        let mut sum: i64 = 0;
        let mut i: usize = 0;
        while i < scores_len
            invariant
                i <= window.len(),
                scores_len == window.len(),
                1 <= scores_len <= 100,
                self.vad_scores@ == window,
                forall|q: int| 0 <= q < window.len() ==> 0 <= #[trigger] window[q] <= SCALE,
                sum == spec_sum(window.subrange(0, i as int)),
                0 <= sum <= i * SCALE,
            decreases scores_len - i,
        {
            proof {
                assert(window.subrange(0, i + 1 as int).drop_last() =~= window.subrange(
                    0,
                    i as int,
                ));
            }
            sum = sum + self.vad_scores[i];
            i = i + 1;
        }
        proof {
            assert(window.subrange(0, scores_len as int) =~= window);
            assert(0 <= (sum as int) / (scores_len as int) <= SCALE as int) by (nonlinear_arith)
                requires
                    0 <= sum as int <= (scores_len as int) * (SCALE as int),
                    1 <= scores_len <= 100,
            ;
        }
        self.avg_vad_score = sum / (scores_len as i64);
        self.total_frames = self.total_frames + 1;
    }

    /// Set the model confidence directly, clamped into range.
    pub fn update_confidence(&mut self, confidence: i64)
        requires
            old(self).wf(),
        ensures
            final(self).wf(),
            final(self).model_confidence == crate::fixed::spec_clamp(
                confidence as int,
                0,
                SCALE as int,
            ),
            final(self).vad_scores@ == old(self).vad_scores@,
            final(self).total_frames == old(self).total_frames,
    {
        self.model_confidence = crate::fixed::clamp_i64(confidence, 0, SCALE);
    }

    /// A snapshot of every aggregate for external display.
    pub fn get_performance_summary(&self) -> (r: PerformanceSummary)
        requires
            self.wf(),
        ensures
            r.avg_vad_score == self.avg_vad_score,
            r.avg_latency_ms as int == self.avg_latency_us as int / 1000,
            r.peak_latency_ms as int == self.peak_latency_us as int / 1000,
            r.model_confidence == self.model_confidence,
            r.noise_reduction_percent == self.noise_reduction_percent,
            r.frames_processed == self.total_frames,
            self.avg_latency_us == 0 ==> r.estimated_fps == 100,
            self.avg_latency_us > 0 ==> r.estimated_fps as int == 1_000_000int
                / (self.avg_latency_us as int),
            r.ai_status == spec_ai_status(self.model_confidence as int),
    {
        PerformanceSummary {
            avg_vad_score: self.avg_vad_score,
            avg_latency_ms: self.avg_latency_us / 1000,
            peak_latency_ms: self.peak_latency_us / 1000,
            model_confidence: self.model_confidence,
            noise_reduction_percent: self.noise_reduction_percent,
            frames_processed: self.total_frames,
            estimated_fps: self.calculate_fps(),
            ai_status: if self.model_confidence > 800_000 {
                AiStatus::Excellent
            } else if self.model_confidence > 600_000 {
                AiStatus::Good
            } else if self.model_confidence > 400_000 {
                AiStatus::Fair
            } else {
                AiStatus::Poor
            },
        }
    }

    /// Clear every window and aggregate, for a new session.
    pub fn reset(&mut self)
        ensures
            final(self).wf(),
            final(self).vad_scores@ =~= Seq::<i64>::empty(),
            final(self).processing_latencies@ =~= Seq::<u64>::empty(),
            final(self).total_frames == 0,
            final(self).avg_vad_score == 0,
            final(self).avg_latency_us == 0,
            final(self).peak_latency_us == 0,
            final(self).model_confidence == 0,
            final(self).noise_reduction_percent == 0,
            final(self).current_noise_type == NoiseType::Unknown,
            final(self).adaptation_confidence == 0,
    {
        *self = AiMetrics::new();
    }
}

/// The status label a confidence level earns.
pub open spec fn spec_ai_status(confidence: int) -> AiStatus {
    if confidence > 800_000 {
        AiStatus::Excellent
    } else if confidence > 600_000 {
        AiStatus::Good
    } else if confidence > 400_000 {
        AiStatus::Fair
    } else {
        AiStatus::Poor
    }
}

/// Aggregates for external display.
#[derive(Debug, Clone, Copy, PartialEq, Eq, Structural)]
pub struct PerformanceSummary {
    /// Average voice-activity score over the window (fixed point).
    pub avg_vad_score: i64,
    /// Average latency over the window, in whole milliseconds.
    pub avg_latency_ms: u64,
    /// Peak latency, in whole milliseconds.
    pub peak_latency_ms: u64,
    /// Confidence in the model's decisions (fixed point).
    pub model_confidence: i64,
    /// Estimated noise reduction (fixed-point percent).
    pub noise_reduction_percent: i64,
    /// Frames processed since start.
    pub frames_processed: u64,
    /// Estimated processing rate, frames per second.
    pub estimated_fps: u32,
    /// The status label the confidence earns.
    pub ai_status: AiStatus,
}

/// Processing status indicator, a function of the model confidence.
#[derive(Debug, Clone, Copy, PartialEq, Eq, Structural)]
pub enum AiStatus {
    /// Confidence above 0.8.
    Excellent,
    /// Confidence above 0.6.
    Good,
    /// Confidence above 0.4.
    Fair,
    /// Confidence at or below 0.4.
    Poor,
}

impl AiStatus {
    /// The display name of the status.
    pub fn as_str(&self) -> (r: &'static str)
        ensures
            r@ == match self {
                AiStatus::Excellent => "Excellent"@,
                AiStatus::Good => "Good"@,
                AiStatus::Fair => "Fair"@,
                AiStatus::Poor => "Poor"@,
            },
    {
        match self {
            AiStatus::Excellent => "Excellent",
            AiStatus::Good => "Good",
            AiStatus::Fair => "Fair",
            AiStatus::Poor => "Poor",
        }
    }

    /// The display color (red, green, blue) for the status.
    pub fn color(&self) -> (r: (u8, u8, u8))
        ensures
            r == match self {
                AiStatus::Excellent => (0u8, 255u8, 0u8),
                AiStatus::Good => (128u8, 128u8, 128u8),
                AiStatus::Fair => (255u8, 165u8, 0u8),
                AiStatus::Poor => (255u8, 0u8, 0u8),
            },
    {
        match self {
            AiStatus::Excellent => (0, 255, 0),
            AiStatus::Good => (128, 128, 128),
            AiStatus::Fair => (255, 165, 0),
            AiStatus::Poor => (255, 0, 0),
        }
    }
}

} // verus!
