//! The multi-stage noise-suppression pipeline: spectral gate pre-filter,
//! adaptive gain control, dynamic-range compression, and the orchestrator
//! that sequences them around the denoising model.

use vstd::prelude::*;
use crate::{MAX_AMP, SCALE};
use crate::fixed::{
    clamp_i64, lemma_scaled_shrinks, rms, scaled_mul, spec_clamp, spec_rms, spec_scaled,
};
use crate::analysis::{AudioAnalyzer, AudioContext, NoiseType};

verus! {

/// The noise floor after seeing a frame with the given RMS: a slow
/// exponential tracker that learns only from quiet frames (RMS below twice
/// the current floor).
pub open spec fn spec_floor_after(noise_floor: int, rms_value: int) -> int {
    if rms_value < 2 * noise_floor {
        (99 * noise_floor + rms_value) / 100
    } else {
        noise_floor
    }
}

/// The gating target: fully open when the frame is louder than the scaled
/// noise floor, fully closed otherwise.
pub open spec fn spec_gate_target(rms_value: int, noise_floor: int, multiplier: int) -> int {
    if rms_value > spec_scaled(noise_floor, multiplier) {
        SCALE as int
    } else {
        0
    }
}

/// One smoothing step of the gating envelope: move toward the target over
/// `attack` steps when opening and `release` steps when closing. The step
/// rounds up, so the envelope always makes progress until it arrives.
pub open spec fn spec_gate_after(gate: int, target: int, attack: int, release: int) -> int {
    if target > gate {
        gate + (target - gate + attack - 1) / attack
    } else {
        gate - (gate - target + release - 1) / release
    }
}

/// Pre-filter: tracks a noise floor and smoothly attenuates frames below
/// it, with a fast attack and a slow release to avoid audible clicking.
pub struct SpectralGate {
    noise_floor: i64,
    threshold_multiplier: i64,
    attack_samples: usize,
    release_samples: usize,
    gate_state: i64,
}

impl SpectralGate {
    pub closed spec fn noise_floor(&self) -> int {
        self.noise_floor as int
    }

    pub closed spec fn threshold_multiplier(&self) -> int {
        self.threshold_multiplier as int
    }

    pub closed spec fn attack_samples(&self) -> int {
        self.attack_samples as int
    }

    pub closed spec fn release_samples(&self) -> int {
        self.release_samples as int
    }

    pub closed spec fn gate_state(&self) -> int {
        self.gate_state as int
    }

    pub closed spec fn wf(&self) -> bool {
        &&& 0 <= self.noise_floor <= MAX_AMP
        &&& 0 <= self.gate_state <= SCALE
        &&& 0 < self.threshold_multiplier <= 10 * SCALE
        &&& 1 <= self.attack_samples <= 1_000_000
        &&& 1 <= self.release_samples <= 1_000_000
    }

    /// A gate for the given sample rate: a 1 ms attack, a 50 ms release,
    /// a small initial noise floor and a closed gate.
    pub fn new(sample_rate: u32) -> (r: SpectralGate)
        requires
            1000 <= sample_rate <= 1_000_000,
        ensures
            r.wf(),
            r.noise_floor() == 1_000,
            r.threshold_multiplier() == 2 * SCALE,
            r.attack_samples() == sample_rate as int / 1000,
            r.release_samples() == sample_rate as int * 50 / 1000,
            r.gate_state() == 0,
    {
        SpectralGate {
            noise_floor: 1_000,
            threshold_multiplier: 2 * SCALE,
            attack_samples: (sample_rate / 1000) as usize,
            release_samples: ((sample_rate * 50) / 1000) as usize,
            gate_state: 0,
        }
    }

    /// The current gate envelope (0 = closed, `SCALE` = open).
    pub fn current_gate_state(&self) -> (r: i64)
        ensures
            r == self.gate_state(),
    {
        self.gate_state
    }

    /// The current learned noise floor.
    pub fn current_noise_floor(&self) -> (r: i64)
        ensures
            r == self.noise_floor(),
    {
        self.noise_floor
    }

    /// Gate one frame: update the noise floor from the frame's RMS, move
    /// the gating envelope toward its target, and scale every sample by the
    /// resulting gate gain.
    #[verifier::loop_isolation(false)]
    pub fn process(&mut self, samples: &mut Vec<i64>)
        requires
            old(self).wf(),
            1 <= old(samples)@.len() <= 4096,
            forall|i: int|
                0 <= i < old(samples)@.len() ==> -MAX_AMP <= #[trigger] old(samples)@[i]
                    <= MAX_AMP,
        ensures
            final(self).wf(),
            final(self).threshold_multiplier() == old(self).threshold_multiplier(),
            final(self).attack_samples() == old(self).attack_samples(),
            final(self).release_samples() == old(self).release_samples(),
            final(self).noise_floor() == spec_floor_after(
                old(self).noise_floor(),
                spec_rms(old(samples)@),
            ),
            final(self).gate_state() == spec_gate_after(
                old(self).gate_state(),
                spec_gate_target(
                    spec_rms(old(samples)@),
                    final(self).noise_floor(),
                    old(self).threshold_multiplier(),
                ),
                old(self).attack_samples(),
                old(self).release_samples(),
            ),
            final(samples)@.len() == old(samples)@.len(),
            forall|i: int|
                0 <= i < old(samples)@.len() ==> #[trigger] final(samples)@[i] == spec_scaled(
                    old(samples)@[i] as int,
                    final(self).gate_state(),
                ) as i64,
            forall|i: int|
                0 <= i < final(samples)@.len() ==> -MAX_AMP <= #[trigger] final(samples)@[i]
                    <= MAX_AMP,
    {
        let level = rms(samples);
        if level < 2 * self.noise_floor {
            self.noise_floor = (99 * self.noise_floor + level) / 100;
        }
        let threshold = scaled_mul(self.noise_floor, self.threshold_multiplier);
        let target: i64 = if level > threshold {
            SCALE
        } else {
            0
        };
        if target > self.gate_state {
            let step = (target - self.gate_state + (self.attack_samples as i64) - 1)
                / (self.attack_samples as i64);
            proof {
                lemma_ceil_step_bounded(
                    (target - self.gate_state) as int,
                    self.attack_samples as int,
                );
            }
            self.gate_state = self.gate_state + step;
        } else {
            let step = (self.gate_state - target + (self.release_samples as i64) - 1)
                / (self.release_samples as i64);
            proof {
                lemma_ceil_step_bounded(
                    (self.gate_state - target) as int,
                    self.release_samples as int,
                );
            }
            self.gate_state = self.gate_state - step;
        }
        let gain = clamp_i64(self.gate_state, 0, SCALE);
        let ghost before = samples@;
        let mut out: Vec<i64> = Vec::new();
        let mut i: usize = 0;
        while i < samples.len()
            invariant
                i <= before.len(),
                samples@ == before,
                out@.len() == i,
                0 <= gain <= SCALE,
                gain == self.gate_state,
                forall|k: int|
                    0 <= k < i ==> #[trigger] out@[k] == spec_scaled(
                        before[k] as int,
                        gain as int,
                    ) as i64,
                forall|k: int| 0 <= k < i ==> -MAX_AMP <= #[trigger] out@[k] <= MAX_AMP,
            decreases before.len() - i,
        {
            out.push(scaled_mul(samples[i], gain));
            i = i + 1;
        }
        *samples = out;
    }
}

/// The ceiling step `(d + n - 1) / n` of a distance `d >= 0` over `n >= 1`
/// steps never overshoots the distance, and is positive whenever `d` is.
proof fn lemma_ceil_step_bounded(d: int, n: int)
    requires
        0 <= d,
        1 <= n,
    ensures
        0 <= (d + n - 1) / n <= d,
        d > 0 ==> (d + n - 1) / n >= 1,
{
    assert(0 <= (d + n - 1) / n <= d && (d > 0 ==> (d + n - 1) / n >= 1)) by (nonlinear_arith)
        requires
            0 <= d,
            1 <= n,
    ;
}

/// Gate law, closing direction: while frames stay below the threshold (so
/// the target is closed), each processed frame strictly lowers a positive
/// gate envelope, and the envelope never falls below zero — sustained quiet
/// input drives the gating envelope fully closed.
pub proof fn lemma_gate_release_progress(gate: int, attack: int, release: int)
    requires
        0 < gate <= SCALE as int,
        1 <= attack,
        1 <= release,
    ensures
        0 <= spec_gate_after(gate, 0, attack, release) < gate,
{
    lemma_ceil_step_bounded(gate, release);
}

/// Gate law, opening direction: while frames stay above the threshold (so
/// the target is open), each processed frame strictly raises a not-yet-open
/// gate envelope, and the envelope never exceeds one — a sustained loud
/// input drives the gating envelope fully open.
pub proof fn lemma_gate_attack_progress(gate: int, attack: int, release: int)
    requires
        0 <= gate < SCALE as int,
        1 <= attack,
        1 <= release,
    ensures
        gate < spec_gate_after(gate, SCALE as int, attack, release) <= SCALE as int,
{
    lemma_ceil_step_bounded(SCALE as int - gate, attack);
}

/// The envelope after `n` frames whose target never changes.
pub open spec fn spec_gate_iterated(gate: int, target: int, attack: int, release: int, n: nat) -> int
    decreases n,
{
    if n == 0 {
        gate
    } else {
        spec_gate_after(
            spec_gate_iterated(gate, target, attack, release, (n - 1) as nat),
            target,
            attack,
            release,
        )
    }
}

/// Gate law, quantitative: the envelope reaches a closed target within as
/// many sustained quiet frames as its starting raw value (so never more
/// than `SCALE` frames), and an open target within `SCALE` minus its
/// starting value sustained loud frames. Each step moves by at least one
/// raw unit, so the distance to the target bounds the settling time.
pub proof fn lemma_gate_settles(gate: int, attack: int, release: int, n: nat)
    requires
        0 <= gate <= SCALE as int,
        1 <= attack,
        1 <= release,
    ensures
        0 <= spec_gate_iterated(gate, 0, attack, release, n) <= SCALE as int,
        spec_gate_iterated(gate, 0, attack, release, n) <= gate - n || spec_gate_iterated(
            gate,
            0,
            attack,
            release,
            n,
        ) == 0,
        0 <= spec_gate_iterated(gate, SCALE as int, attack, release, n) <= SCALE as int,
        spec_gate_iterated(gate, SCALE as int, attack, release, n) >= gate + n
            || spec_gate_iterated(gate, SCALE as int, attack, release, n) == SCALE as int,
    decreases n,
{
    if n > 0 {
        lemma_gate_settles(gate, attack, release, (n - 1) as nat);
        let closing = spec_gate_iterated(gate, 0, attack, release, (n - 1) as nat);
        if closing > 0 {
            lemma_gate_release_progress(closing, attack, release);
        } else {
            lemma_ceil_step_bounded(0, release);
        }
        let opening = spec_gate_iterated(gate, SCALE as int, attack, release, (n - 1) as nat);
        if opening < SCALE as int {
            lemma_gate_attack_progress(opening, attack, release);
        } else {
            // At the target the step is zero and the envelope stays put.
            lemma_ceil_step_bounded(0, release);
        }
    }
}

/// The envelope after one follower step: pulled toward the sample level,
/// fast on attack (rising) and slowly on release (falling).
pub open spec fn spec_env_after(env: int, level: int, attack_coeff: int, release_coeff: int) -> int {
    if level > env {
        level + spec_scaled(env - level, attack_coeff)
    } else {
        level + spec_scaled(env - level, release_coeff)
    }
}

/// The envelope after the first `k` samples of a frame.
pub open spec fn spec_env_at(
    samples: Seq<i64>,
    k: int,
    env0: int,
    attack_coeff: int,
    release_coeff: int,
) -> int
    decreases k,
{
    if k <= 0 {
        env0
    } else {
        let prev = spec_env_at(samples, k - 1, env0, attack_coeff, release_coeff);
        let s = samples[k - 1] as int;
        let level = if s >= 0 {
            s
        } else {
            -s
        };
        spec_env_after(prev, level, attack_coeff, release_coeff)
    }
}

/// The compressor gain for an envelope: unity below the threshold; above
/// it, the amount over the threshold is divided by the ratio.
pub open spec fn spec_comp_gain(env: int, threshold: int, ratio: int) -> int {
    if env > threshold {
        ((threshold + (env - threshold) / ratio) * SCALE) / env
    } else {
        SCALE as int
    }
}

/// The fixed-point smoothing coefficient for an `n`-sample time constant:
/// the second-order series of `exp(-1/n)`, `1 - 1/n + 1/(2n^2)`.
pub open spec fn spec_smoothing_coeff(n: int) -> int {
    SCALE as int - SCALE as int / n + SCALE as int / (2 * n * n)
}

/// Compute the smoothing coefficient for an `n`-sample time constant.
fn smoothing_coeff(n: i64) -> (r: i64)
    requires
        3 <= n <= 100_000,
    ensures
        r == spec_smoothing_coeff(n as int),
        0 <= r < SCALE,
{
    proof {
        let m = n as int;
        assert(m * m <= 10_000_000_000 && m <= m * m && 2 * m <= 2 * m * m && 0 < 2 * m * m && 2
            * m * m <= 20_000_000_000) by (nonlinear_arith)
            requires
                3 <= m <= 100_000,
        ;
        // 10 <= SCALE / n, since 10 * n <= SCALE.
        vstd::arithmetic::div_mod::lemma_div_by_multiple(10, m);
        vstd::arithmetic::div_mod::lemma_div_is_ordered(10 * m, SCALE as int, m);
        // SCALE / (2n^2) <= SCALE / (2n) == (SCALE / n) / 2 < SCALE / n.
        vstd::arithmetic::div_mod::lemma_div_denominator(SCALE as int, m, 2);
        vstd::arithmetic::div_mod::lemma_div_is_ordered_by_denominator(
            SCALE as int,
            2 * m,
            2 * m * m,
        );
        // SCALE / n <= SCALE, so the subtraction stays nonnegative.
        vstd::arithmetic::div_mod::lemma_div_nonincreasing(SCALE as int, m);
    }
    SCALE - SCALE / n + SCALE / (2 * n * n)
}

/// Post-filter compressor: a per-sample envelope follower with 3 ms attack
/// and 100 ms release, and 3:1 compression above a 0.5 threshold.
pub struct DynamicRangeProcessor {
    threshold: i64,
    ratio: i64,
    attack_coeff: i64,
    release_coeff: i64,
    envelope: i64,
}

impl DynamicRangeProcessor {
    pub closed spec fn threshold(&self) -> int {
        self.threshold as int
    }

    pub closed spec fn ratio(&self) -> int {
        self.ratio as int
    }

    pub closed spec fn attack_coeff(&self) -> int {
        self.attack_coeff as int
    }

    pub closed spec fn release_coeff(&self) -> int {
        self.release_coeff as int
    }

    pub closed spec fn envelope(&self) -> int {
        self.envelope as int
    }

    pub closed spec fn wf(&self) -> bool {
        &&& 0 < self.threshold <= MAX_AMP
        &&& 1 <= self.ratio <= 100
        &&& 0 <= self.attack_coeff < SCALE
        &&& 0 <= self.release_coeff < SCALE
        &&& 0 <= self.envelope <= MAX_AMP
    }

    /// A compressor for the given sample rate. The smoothing coefficients
    /// approximate the exponential time constants `exp(-1/n)` by the series
    /// `1 - 1/n + 1/(2n^2)` over the attack (3 ms) and release (100 ms)
    /// windows, which matches `exp` to six decimal places at both.
    pub fn new(sample_rate: u32) -> (r: DynamicRangeProcessor)
        requires
            1000 <= sample_rate <= 1_000_000,
        ensures
            r.wf(),
            r.threshold() == 500_000,
            r.ratio() == 3,
            r.attack_coeff() == spec_smoothing_coeff(3 * sample_rate as int / 1000),
            r.release_coeff() == spec_smoothing_coeff(sample_rate as int / 10),
            r.envelope() == 0,
    {
        let attack_window = 3 * (sample_rate as i64) / 1000;
        let release_window = (sample_rate as i64) / 10;
        DynamicRangeProcessor {
            threshold: 500_000,
            ratio: 3,
            attack_coeff: smoothing_coeff(attack_window),
            release_coeff: smoothing_coeff(release_window),
            envelope: 0,
        }
    }

    /// Compress one frame sample by sample: the envelope follows each
    /// sample's level, and samples are scaled by the gain the envelope
    /// dictates at that instant.
    #[verifier::loop_isolation(false)]
    pub fn process(&mut self, samples: &mut Vec<i64>)
        requires
            old(self).wf(),
            old(samples)@.len() <= 4096,
            forall|i: int|
                0 <= i < old(samples)@.len() ==> -MAX_AMP <= #[trigger] old(samples)@[i]
                    <= MAX_AMP,
        ensures
            final(self).wf(),
            final(self).threshold() == old(self).threshold(),
            final(self).ratio() == old(self).ratio(),
            final(self).attack_coeff() == old(self).attack_coeff(),
            final(self).release_coeff() == old(self).release_coeff(),
            final(self).envelope() == spec_env_at(
                old(samples)@,
                old(samples)@.len() as int,
                old(self).envelope(),
                old(self).attack_coeff(),
                old(self).release_coeff(),
            ),
            final(samples)@.len() == old(samples)@.len(),
            forall|i: int|
                0 <= i < old(samples)@.len() ==> #[trigger] final(samples)@[i] == spec_scaled(
                    old(samples)@[i] as int,
                    spec_comp_gain(
                        spec_env_at(
                            old(samples)@,
                            i + 1,
                            old(self).envelope(),
                            old(self).attack_coeff(),
                            old(self).release_coeff(),
                        ),
                        old(self).threshold(),
                        old(self).ratio(),
                    ),
                ) as i64,
            forall|i: int|
                0 <= i < final(samples)@.len() ==> -MAX_AMP <= #[trigger] final(samples)@[i]
                    <= MAX_AMP,
    {
        let ghost before = samples@;
        let ghost env0 = self.envelope as int;
        let mut out: Vec<i64> = Vec::new();
        let mut i: usize = 0;
        while i < samples.len()
            invariant
                i <= before.len(),
                samples@ == before,
                out@.len() == i,
                self.threshold == old(self).threshold,
                self.ratio == old(self).ratio,
                self.attack_coeff == old(self).attack_coeff,
                self.release_coeff == old(self).release_coeff,
                0 <= self.envelope <= MAX_AMP,
                self.envelope == spec_env_at(
                    before,
                    i as int,
                    env0,
                    self.attack_coeff as int,
                    self.release_coeff as int,
                ),
                forall|k: int|
                    0 <= k < i ==> #[trigger] out@[k] == spec_scaled(
                        before[k] as int,
                        spec_comp_gain(
                            spec_env_at(
                                before,
                                k + 1,
                                env0,
                                self.attack_coeff as int,
                                self.release_coeff as int,
                            ),
                            self.threshold as int,
                            self.ratio as int,
                        ),
                    ) as i64,
                forall|k: int| 0 <= k < i ==> -MAX_AMP <= #[trigger] out@[k] <= MAX_AMP,
            decreases before.len() - i,
        {
            let s = samples[i];
            let level: i64 = if s >= 0 {
                s
            } else {
                -s
            };
            let coeff = if level > self.envelope {
                self.attack_coeff
            } else {
                self.release_coeff
            };
            let pulled = scaled_mul(self.envelope - level, coeff);
            let new_env = level + pulled;
            proof {
                lemma_scaled_shrinks((self.envelope - level) as int, coeff as int);
            }
            self.envelope = new_env;
            let gain: i64 = if self.envelope > self.threshold {
                let over = self.envelope - self.threshold;
                let compressed = over / self.ratio;
                ((self.threshold + compressed) * SCALE) / self.envelope
            } else {
                SCALE
            };
            proof {
                if self.envelope > self.threshold {
                    lemma_comp_gain_unit(
                        self.envelope as int,
                        self.threshold as int,
                        self.ratio as int,
                    );
                }
            }
            out.push(scaled_mul(s, gain));
            i = i + 1;
        }
        *samples = out;
    }
}

/// Above the threshold the compressor gain lies strictly between zero and
/// unity, and its numerator stays far from overflow.
proof fn lemma_comp_gain_unit(env: int, threshold: int, ratio: int)
    requires
        0 < threshold < env <= MAX_AMP as int,
        1 <= ratio <= 100,
    ensures
        0 <= ((threshold + (env - threshold) / ratio) * SCALE) / env <= SCALE as int,
        0 <= threshold + (env - threshold) / ratio <= env,
{
    assert(0 <= (env - threshold) / ratio <= env - threshold) by (nonlinear_arith)
        requires
            0 < env - threshold,
            1 <= ratio,
    ;
    let num = threshold + (env - threshold) / ratio;
    assert(0 <= (num * SCALE) / env <= SCALE as int) by (nonlinear_arith)
        requires
            0 < num <= env,
            0 < env,
            SCALE as int > 0,
    ;
}

/// Every sample scaled by one fixed-point gain.
pub open spec fn spec_gained(s: Seq<i64>, gain: int) -> Seq<i64> {
    Seq::new(s.len(), |i: int| spec_scaled(s[i] as int, gain) as i64)
}

/// The whole frame through the compressor, sample by sample.
pub open spec fn spec_compressed(
    s: Seq<i64>,
    env0: int,
    attack_coeff: int,
    release_coeff: int,
    threshold: int,
    ratio: int,
) -> Seq<i64> {
    Seq::new(
        s.len(),
        |i: int|
            spec_scaled(
                s[i] as int,
                spec_comp_gain(
                    spec_env_at(s, i + 1, env0, attack_coeff, release_coeff),
                    threshold,
                    ratio,
                ),
            ) as i64,
    )
}

/// Per-type gain parameters of the adaptive gain controller.
#[derive(Debug, Clone, Copy, PartialEq, Eq, Structural)]
pub struct GainParameters {
    /// Gain applied to confident speech (fixed point).
    pub speech_gain: i64,
    /// Gain applied to confident noise (fixed point).
    pub noise_gain: i64,
    /// Gain for fading out a trailing partial frame (fixed point).
    pub fade_gain: i64,
    /// Voice-activity score above which speech confidence starts to rise.
    pub speech_threshold: i64,
}

impl GainParameters {
    pub open spec fn wf(&self) -> bool {
        &&& 0 <= self.noise_gain <= self.speech_gain <= SCALE
        &&& 0 <= self.fade_gain <= SCALE
        &&& 0 <= self.speech_threshold < SCALE
    }
}

/// The base gain parameters tuned for each noise type.
pub open spec fn spec_base_params(t: NoiseType) -> GainParameters {
    match t {
        NoiseType::Speech => GainParameters {
            speech_gain: 900_000,
            noise_gain: 300_000,
            fade_gain: 600_000,
            speech_threshold: 400_000,
        },
        NoiseType::Keyboard => GainParameters {
            speech_gain: 800_000,
            noise_gain: 50_000,
            fade_gain: 600_000,
            speech_threshold: 600_000,
        },
        NoiseType::HVAC => GainParameters {
            speech_gain: 850_000,
            noise_gain: 100_000,
            fade_gain: 600_000,
            speech_threshold: 500_000,
        },
        NoiseType::Music => GainParameters {
            speech_gain: 900_000,
            noise_gain: 400_000,
            fade_gain: 600_000,
            speech_threshold: 300_000,
        },
        NoiseType::Silence => GainParameters {
            speech_gain: 950_000,
            noise_gain: 50_000,
            fade_gain: 600_000,
            speech_threshold: 300_000,
        },
        NoiseType::Unknown => GainParameters {
            speech_gain: 800_000,
            noise_gain: 200_000,
            fade_gain: 600_000,
            speech_threshold: 500_000,
        },
    }
}

/// Confidence refinement: very confident speech preserves a little more
/// audio, very confident noise suppresses twice as hard (floored at 0.02).
pub open spec fn spec_refined_params(voice_prob: int, base: GainParameters) -> GainParameters {
    let sg = if voice_prob > 800_000 {
        if base.speech_gain + 100_000 < SCALE as int {
            base.speech_gain + 100_000
        } else {
            SCALE as int
        }
    } else {
        base.speech_gain as int
    };
    let ng = if voice_prob < 200_000 {
        if base.noise_gain / 2 > 20_000 {
            base.noise_gain / 2
        } else {
            20_000
        }
    } else {
        base.noise_gain as int
    };
    GainParameters {
        speech_gain: sg as i64,
        noise_gain: ng as i64,
        fade_gain: base.fade_gain,
        speech_threshold: base.speech_threshold,
    }
}

/// Pick the gain parameters for the analyzed context: the per-type base
/// values, refined by how confident the voice detection is.
pub fn determine_processing_parameters(context: &AudioContext) -> (r: GainParameters)
    requires
        0 <= context.voice_probability <= SCALE,
    ensures
        r == spec_refined_params(
            context.voice_probability as int,
            spec_base_params(context.noise_type),
        ),
        r.wf(),
        r.noise_gain + 2 <= r.speech_gain,
{
    let mut params = match context.noise_type {
        NoiseType::Speech => GainParameters {
            speech_gain: 900_000,
            noise_gain: 300_000,
            fade_gain: 600_000,
            speech_threshold: 400_000,
        },
        NoiseType::Keyboard => GainParameters {
            speech_gain: 800_000,
            noise_gain: 50_000,
            fade_gain: 600_000,
            speech_threshold: 600_000,
        },
        NoiseType::HVAC => GainParameters {
            speech_gain: 850_000,
            noise_gain: 100_000,
            fade_gain: 600_000,
            speech_threshold: 500_000,
        },
        NoiseType::Music => GainParameters {
            speech_gain: 900_000,
            noise_gain: 400_000,
            fade_gain: 600_000,
            speech_threshold: 300_000,
        },
        NoiseType::Silence => GainParameters {
            speech_gain: 950_000,
            noise_gain: 50_000,
            fade_gain: 600_000,
            speech_threshold: 300_000,
        },
        NoiseType::Unknown => GainParameters {
            speech_gain: 800_000,
            noise_gain: 200_000,
            fade_gain: 600_000,
            speech_threshold: 500_000,
        },
    };
    if context.voice_probability > 800_000 {
        params.speech_gain = if params.speech_gain + 100_000 < SCALE {
            params.speech_gain + 100_000
        } else {
            SCALE
        };
    } else if context.voice_probability < 200_000 {
        params.noise_gain = if params.noise_gain / 2 > 20_000 {
            params.noise_gain / 2
        } else {
            20_000
        };
    }
    params
}

/// Speech confidence: how far the score sits above the threshold, scaled to
/// span `[0, 1]` over the remaining headroom.
pub open spec fn spec_speech_confidence(vad: int, threshold: int) -> int {
    if vad > threshold {
        ((vad - threshold) * SCALE) / (SCALE as int - threshold)
    } else {
        0
    }
}

/// The environmental adjustment for a noise type: extra suppression while a
/// keyboard is active and the score is low, steady suppression for HVAC.
pub open spec fn spec_env_adjustment(t: NoiseType, vad: int) -> int {
    match t {
        NoiseType::Keyboard => if vad < 300_000 {
            700_000
        } else {
            SCALE as int
        },
        NoiseType::HVAC => 900_000,
        _ => SCALE as int,
    }
}

/// The adaptive gain: noise gain plus speech confidence's share of the
/// speech/noise gap, environmentally adjusted and clamped to `[0.02, 1.0]`.
pub open spec fn spec_intelligent_gain(vad: int, t: NoiseType, params: GainParameters) -> int {
    let confidence = spec_speech_confidence(vad, params.speech_threshold as int);
    let base = params.noise_gain + spec_scaled(
        (params.speech_gain - params.noise_gain) as int,
        confidence,
    );
    spec_clamp(spec_scaled(base, spec_env_adjustment(t, vad)), 20_000, SCALE as int)
}

/// Compute the adaptive gain for one frame: a continuous interpolation
/// between the noise gain and the speech gain, never a hard switch.
pub fn calculate_intelligent_gain(
    vad_score: i64,
    context: &AudioContext,
    params: &GainParameters,
) -> (r: i64)
    requires
        0 <= vad_score <= SCALE,
        params.wf(),
    ensures
        r == spec_intelligent_gain(vad_score as int, context.noise_type, *params),
        20_000 <= r <= SCALE,
{
    let speech_confidence: i64 = if vad_score > params.speech_threshold {
        proof {
            assert(0 <= ((vad_score - params.speech_threshold) * (SCALE as int)) / (SCALE as int
                - params.speech_threshold) <= SCALE as int) by (nonlinear_arith)
                requires
                    0 <= params.speech_threshold < vad_score <= SCALE,
            ;
        }
        ((vad_score - params.speech_threshold) * SCALE) / (SCALE - params.speech_threshold)
    } else {
        0
    };
    let gap = params.speech_gain - params.noise_gain;
    let base_gain = params.noise_gain + scaled_mul(gap, speech_confidence);
    let environmental_adjustment: i64 = match context.noise_type {
        NoiseType::Keyboard => {
            if vad_score < 300_000 {
                700_000
            } else {
                SCALE
            }
        },
        NoiseType::HVAC => 900_000,
        _ => SCALE,
    };
    clamp_i64(scaled_mul(base_gain, environmental_adjustment), 20_000, SCALE)
}

/// Adaptive gain law: with the score at 0.9 and the threshold at 0.5 the
/// speech confidence is exactly 0.8; the resulting gain always lies in
/// `[0.02, 1.0]`, and — whenever no environmental adjustment shrinks it
/// (every type but HVAC, since at such a score a keyboard adjustment never
/// fires) — it exceeds the noise gain strictly.
pub proof fn lemma_adaptive_gain_interpolates(t: NoiseType, params: GainParameters)
    requires
        params.wf(),
        params.speech_threshold == 500_000,
        params.noise_gain + 2 <= params.speech_gain,
        !(t is HVAC),
    ensures
        spec_speech_confidence(900_000, 500_000) == 800_000,
        20_000 <= spec_intelligent_gain(900_000, t, params) <= SCALE as int,
        spec_intelligent_gain(900_000, t, params) > params.noise_gain,
{
    assert(spec_speech_confidence(900_000, 500_000) == 800_000);
    let gap = (params.speech_gain - params.noise_gain) as int;
    let lift = spec_scaled(gap, 800_000);
    assert(1 <= lift <= gap) by (nonlinear_arith)
        requires
            2 <= gap <= SCALE as int,
            lift == (gap * 800_000) / (SCALE as int),
    ;
    let base = params.noise_gain + lift;
    assert(spec_env_adjustment(t, 900_000) == SCALE as int);
    lemma_scaled_shrinks(base, SCALE as int);
    assert(spec_scaled(base, SCALE as int) == base) by (nonlinear_arith)
        requires
            base >= 0,
    ;
}

/// Pipeline configuration, read once per frame.
#[derive(Debug, Clone, Copy, PartialEq, Eq, Structural)]
pub struct ProcessingParameters {
    /// Noise cancellation sensitivity (fixed point, 0.01 to 0.5).
    pub sensitivity: i64,
    /// Enable the adaptive gain controller (else a simple two-level gain).
    pub adaptive_mode: bool,
    /// Enable the spectral gate pre-filter.
    pub noise_gate_enabled: bool,
    /// Enable the dynamic-range post-processor.
    pub dynamic_range_enabled: bool,
}

impl ProcessingParameters {
    pub open spec fn wf(&self) -> bool {
        10_000 <= self.sensitivity <= 500_000
    }
}

impl Default for ProcessingParameters {
    /// Moderate sensitivity with every stage enabled.
    fn default() -> (r: ProcessingParameters)
        ensures
            r == (ProcessingParameters {
                sensitivity: 100_000i64,
                adaptive_mode: true,
                noise_gate_enabled: true,
                dynamic_range_enabled: true,
            }),
            r.wf(),
    {
        ProcessingParameters {
            sensitivity: 100_000,
            adaptive_mode: true,
            noise_gate_enabled: true,
            dynamic_range_enabled: true,
        }
    }
}

/// Diagnostic toggles, explicit state handed to whoever runs the pipeline
/// instead of hidden process-wide flags.
pub struct DebugFlags {
    max_test_mode: bool,
    pipeline_verification: bool,
}

impl DebugFlags {
    pub closed spec fn max_test(&self) -> bool {
        self.max_test_mode
    }

    pub closed spec fn verification(&self) -> bool {
        self.pipeline_verification
    }

    /// Both diagnostic modes start disabled.
    pub fn new() -> (r: DebugFlags)
        ensures
            !r.max_test(),
            !r.verification(),
    {
        DebugFlags { max_test_mode: false, pipeline_verification: false }
    }

    /// Enable or disable maximum test mode (extreme suppression settings
    /// for diagnosing a silent pipeline).
    pub fn set_max_test_mode(&mut self, enabled: bool)
        ensures
            final(self).max_test() == enabled,
            final(self).verification() == old(self).verification(),
    {
        self.max_test_mode = enabled;
    }

    /// Whether maximum test mode is on.
    pub fn is_max_test_mode_enabled(&self) -> (r: bool)
        ensures
            r == self.max_test(),
    {
        self.max_test_mode
    }

    /// Enable or disable pipeline verification mode (an audible marker that
    /// confirms audio is flowing through the pipeline).
    pub fn set_pipeline_verification_mode(&mut self, enabled: bool)
        ensures
            final(self).verification() == enabled,
            final(self).max_test() == old(self).max_test(),
    {
        self.pipeline_verification = enabled;
    }

    /// Whether pipeline verification mode is on.
    pub fn is_pipeline_verification_mode_enabled(&self) -> (r: bool)
        ensures
            r == self.verification(),
    {
        self.pipeline_verification
    }
}

/// The two-level gain of the plain processing path: strong suppression for
/// likely noise, high gain for likely speech; in maximum test mode the
/// contrast is pushed to the extreme.
pub open spec fn spec_selected_gain(vad: int, max_test_mode: bool) -> i64 {
    if max_test_mode {
        if vad < 800_000 {
            5_000i64
        } else {
            980_000i64
        }
    } else {
        if vad < 500_000 {
            100_000i64
        } else {
            800_000i64
        }
    }
}

/// Choose the two-level gain for a frame from its voice-activity score.
pub fn select_gain(vad: i64, max_test_mode: bool) -> (r: i64)
    ensures
        r == spec_selected_gain(vad as int, max_test_mode),
        0 < r <= SCALE,
{
    if max_test_mode {
        if vad < 800_000 {
            5_000
        } else {
            980_000
        }
    } else {
        if vad < 500_000 {
            100_000
        } else {
            800_000
        }
    }
}

/// Scale every sample of a frame by one gain.
#[verifier::loop_isolation(false)]
pub fn apply_gain(samples: &mut Vec<i64>, gain: i64)
    requires
        0 <= gain <= SCALE,
        old(samples)@.len() <= 4096,
        forall|i: int|
            0 <= i < old(samples)@.len() ==> -MAX_AMP <= #[trigger] old(samples)@[i] <= MAX_AMP,
    ensures
        final(samples)@ =~= spec_gained(old(samples)@, gain as int),
        forall|i: int|
            0 <= i < final(samples)@.len() ==> -MAX_AMP <= #[trigger] final(samples)@[i]
                <= MAX_AMP,
{
    let ghost before = samples@;
    let mut out: Vec<i64> = Vec::new();
    let mut i: usize = 0;
    while i < samples.len()
        invariant
            i <= before.len(),
            samples@ == before,
            out@.len() == i,
            forall|k: int|
                0 <= k < i ==> #[trigger] out@[k] == spec_scaled(before[k] as int, gain as int)
                    as i64,
            forall|k: int| 0 <= k < i ==> -MAX_AMP <= #[trigger] out@[k] <= MAX_AMP,
        decreases before.len() - i,
    {
        out.push(scaled_mul(samples[i], gain));
        i = i + 1;
    }
    *samples = out;
}

/// Running statistics over every processed frame: exact sums for averages,
/// a peak, and a per-noise-type frame count.
#[derive(Debug, Clone, Copy, PartialEq, Eq, Structural)]
pub struct PipelineStatistics {
    total_frames: u64,
    total_processing_us: u64,
    peak_processing_us: u64,
    silence_frames: u64,
    speech_frames: u64,
    keyboard_frames: u64,
    hvac_frames: u64,
    music_frames: u64,
    unknown_frames: u64,
    voice_probability_sum: i64,
}

impl PipelineStatistics {
    pub closed spec fn frames(&self) -> int {
        self.total_frames as int
    }

    pub closed spec fn processing_us_sum(&self) -> int {
        self.total_processing_us as int
    }

    pub closed spec fn peak_us(&self) -> int {
        self.peak_processing_us as int
    }

    pub closed spec fn voice_sum(&self) -> int {
        self.voice_probability_sum as int
    }

    /// Frame counts per noise type, in declaration order.
    pub closed spec fn distribution(&self) -> Seq<int> {
        seq![
            self.silence_frames as int,
            self.speech_frames as int,
            self.keyboard_frames as int,
            self.hvac_frames as int,
            self.music_frames as int,
            self.unknown_frames as int,
        ]
    }

    pub closed spec fn wf(&self) -> bool {
        &&& self.total_frames <= 0x10_0000_0000
        &&& self.total_processing_us <= self.total_frames * 1_000_000
        &&& 0 <= self.voice_probability_sum <= self.total_frames * (SCALE as u64)
        &&& self.peak_processing_us <= 1_000_000
        &&& self.silence_frames + self.speech_frames + self.keyboard_frames + self.hvac_frames
            + self.music_frames + self.unknown_frames == self.total_frames
    }

    pub fn new() -> (r: PipelineStatistics)
        ensures
            r.wf(),
            r.frames() == 0,
            r.processing_us_sum() == 0,
            r.peak_us() == 0,
            r.voice_sum() == 0,
            r.distribution() =~= seq![0int, 0int, 0int, 0int, 0int, 0int],
    {
        PipelineStatistics {
            total_frames: 0,
            total_processing_us: 0,
            peak_processing_us: 0,
            silence_frames: 0,
            speech_frames: 0,
            keyboard_frames: 0,
            hvac_frames: 0,
            music_frames: 0,
            unknown_frames: 0,
            voice_probability_sum: 0,
        }
    }

    /// The index a noise type occupies in the distribution.
    pub open spec fn spec_type_index(t: NoiseType) -> int {
        match t {
            NoiseType::Silence => 0,
            NoiseType::Speech => 1,
            NoiseType::Keyboard => 2,
            NoiseType::HVAC => 3,
            NoiseType::Music => 4,
            NoiseType::Unknown => 5,
        }
    }

    /// Record one processed frame: its processing time (microseconds,
    /// clipped to one second), noise type and voice probability.
    pub fn record_frame(&mut self, processing_us: u64, context: &AudioContext)
        requires
            old(self).wf(),
            old(self).frames() < 0x10_0000_0000,
            0 <= context.voice_probability <= SCALE,
        ensures
            final(self).wf(),
            final(self).frames() == old(self).frames() + 1,
            final(self).processing_us_sum() == old(self).processing_us_sum() + (if processing_us
                > 1_000_000 {
                1_000_000int
            } else {
                processing_us as int
            }),
            final(self).peak_us() == (if processing_us > 1_000_000 {
                1_000_000int
            } else if processing_us as int > old(self).peak_us() {
                processing_us as int
            } else {
                old(self).peak_us()
            }),
            final(self).voice_sum() == old(self).voice_sum() + context.voice_probability,
            final(self).distribution() =~= old(self).distribution().update(
                Self::spec_type_index(context.noise_type),
                old(self).distribution()[Self::spec_type_index(context.noise_type)] + 1,
            ),
    {
        let us = if processing_us > 1_000_000 {
            1_000_000
        } else {
            processing_us
        };
        proof {
            let n = old(self).frames();
            assert((n + 1) * 1_000_000 == n * 1_000_000 + 1_000_000) by (nonlinear_arith);
            assert((n + 1) * (SCALE as int) == n * (SCALE as int) + SCALE) by (nonlinear_arith);
        }
        self.total_frames = self.total_frames + 1;
        self.total_processing_us = self.total_processing_us + us;
        if us > self.peak_processing_us {
            self.peak_processing_us = us;
        }
        match context.noise_type {
            NoiseType::Silence => {
                self.silence_frames = self.silence_frames + 1;
            },
            NoiseType::Speech => {
                self.speech_frames = self.speech_frames + 1;
            },
            NoiseType::Keyboard => {
                self.keyboard_frames = self.keyboard_frames + 1;
            },
            NoiseType::HVAC => {
                self.hvac_frames = self.hvac_frames + 1;
            },
            NoiseType::Music => {
                self.music_frames = self.music_frames + 1;
            },
            NoiseType::Unknown => {
                self.unknown_frames = self.unknown_frames + 1;
            },
        }
        self.voice_probability_sum = self.voice_probability_sum + context.voice_probability;
    }

    /// Frames processed so far.
    pub fn total_frames(&self) -> (r: u64)
        ensures
            r == self.frames(),
    {
        self.total_frames
    }

    /// Exact average processing time per frame, in microseconds.
    pub fn avg_processing_us(&self) -> (r: u64)
        ensures
            self.frames() == 0 ==> r == 0,
            self.frames() > 0 ==> r == self.processing_us_sum() / self.frames(),
    {
        if self.total_frames == 0 {
            0
        } else {
            self.total_processing_us / self.total_frames
        }
    }

    /// Worst recorded processing time, in microseconds.
    pub fn peak_processing_us(&self) -> (r: u64)
        ensures
            r == self.peak_us(),
    {
        self.peak_processing_us
    }

    /// Frame counts per noise type, in declaration order.
    pub fn noise_type_distribution(&self) -> (r: Vec<u64>)
        ensures
            r@.len() == 6,
            forall|i: int| 0 <= i < 6 ==> #[trigger] r@[i] as int == self.distribution()[i],
    {
        let mut v: Vec<u64> = Vec::new();
        v.push(self.silence_frames);
        v.push(self.speech_frames);
        v.push(self.keyboard_frames);
        v.push(self.hvac_frames);
        v.push(self.music_frames);
        v.push(self.unknown_frames);
        v
    }

    /// Exact average voice probability over every processed frame.
    pub fn avg_voice_probability(&self) -> (r: i64)
        requires
            self.wf(),
        ensures
            self.frames() == 0 ==> r == 0,
            self.frames() > 0 ==> r == self.voice_sum() / self.frames(),
            0 <= r <= SCALE,
    {
        if self.total_frames == 0 {
            0
        } else {
            proof {
                assert(0 <= self.voice_sum() / self.frames() <= SCALE as int) by (nonlinear_arith)
                    requires
                        0 <= self.voice_sum() <= self.frames() * (SCALE as int),
                        self.frames() >= 1,
                ;
            }
            self.voice_probability_sum / (self.total_frames as i64)
        }
    }
}

/// The simple two-level gain of the non-adaptive path.
pub open spec fn spec_simple_gain(vad: int) -> i64 {
    if vad > 500_000 {
        800_000i64
    } else {
        200_000i64
    }
}

/// The gain the post-model stage applies to a frame.
pub open spec fn spec_post_gain(
    adaptive_mode: bool,
    vad: int,
    context: AudioContext,
) -> int {
    if adaptive_mode {
        spec_intelligent_gain(
            vad,
            context.noise_type,
            spec_refined_params(
                context.voice_probability as int,
                spec_base_params(context.noise_type),
            ),
        )
    } else {
        spec_simple_gain(vad) as int
    }
}

/// The multi-stage noise-suppression pipeline.
///
/// Per frame, in fixed order: the spectral gate (when enabled), the context
/// analyzer, the denoising model, the adaptive gain controller (or a simple
/// two-level gain), and the dynamic-range compressor (when enabled). The
/// model itself runs outside this library between `pre_model_stage` and
/// `resolve_model_output`; every decision around it is verified here.
pub struct AdvancedNoisePipeline {
    pre_filter: SpectralGate,
    audio_analyzer: AudioAnalyzer,
    ai_denoiser: crate::models::EnhancedAudioProcessor,
    post_processor: DynamicRangeProcessor,
    processing_params: ProcessingParameters,
    pipeline_stats: PipelineStatistics,
}

impl AdvancedNoisePipeline {
    pub closed spec fn gate(&self) -> SpectralGate {
        self.pre_filter
    }

    pub closed spec fn analyzer(&self) -> AudioAnalyzer {
        self.audio_analyzer
    }

    pub closed spec fn denoiser(&self) -> crate::models::EnhancedAudioProcessor {
        self.ai_denoiser
    }

    pub closed spec fn compressor(&self) -> DynamicRangeProcessor {
        self.post_processor
    }

    pub closed spec fn params(&self) -> ProcessingParameters {
        self.processing_params
    }

    pub closed spec fn stats(&self) -> PipelineStatistics {
        self.pipeline_stats
    }

    pub closed spec fn wf(&self) -> bool {
        &&& self.pre_filter.wf()
        &&& self.audio_analyzer.wf()
        &&& self.ai_denoiser.wf()
        &&& self.post_processor.wf()
        &&& self.processing_params.wf()
        &&& self.pipeline_stats.wf()
    }

    /// Assemble the pipeline for one capture configuration.
    pub fn new(sample_rate: u32, frame_size: usize, sensitivity: i64, model: crate::models::NoiseModel) -> (r:
        AdvancedNoisePipeline)
        requires
            1000 <= sample_rate <= 1_000_000,
            2 <= frame_size <= 4096,
            10_000 <= sensitivity <= 500_000,
        ensures
            r.wf(),
            r.params() == (ProcessingParameters {
                sensitivity,
                adaptive_mode: true,
                noise_gate_enabled: true,
                dynamic_range_enabled: true,
            }),
            r.denoiser().selected() == model,
            r.denoiser().active() == crate::models::NoiseModel::RNNoise,
            r.denoiser().frame_count() == 0,
            r.denoiser().stats().frames() == 0,
            r.stats().frames() == 0,
            r.gate().gate_state() == 0,
            r.analyzer().spectral().frame_size() == frame_size,
            r.analyzer().spectral().sample_rate() == sample_rate,
            r.analyzer().vad().history() =~= Seq::<i64>::empty(),
            r.analyzer().webrtc() is None,
            r.compressor().envelope() == 0,
    {
        AdvancedNoisePipeline {
            pre_filter: SpectralGate::new(sample_rate),
            audio_analyzer: AudioAnalyzer::new(sample_rate, frame_size, sensitivity),
            ai_denoiser: crate::models::EnhancedAudioProcessor::new(model),
            post_processor: DynamicRangeProcessor::new(sample_rate),
            processing_params: ProcessingParameters {
                sensitivity,
                adaptive_mode: true,
                noise_gate_enabled: true,
                dynamic_range_enabled: true,
            },
            pipeline_stats: PipelineStatistics::new(),
        }
    }

    /// Assemble the pipeline with the advanced voice-activity detector as
    /// the analyzer's primary source.
    pub fn new_with_webrtc(
        sample_rate: u32,
        frame_size: usize,
        sensitivity: i64,
        model: crate::models::NoiseModel,
    ) -> (r: AdvancedNoisePipeline)
        requires
            1000 <= sample_rate <= 1_000_000,
            2 <= frame_size <= 4096,
            10_000 <= sensitivity <= 500_000,
        ensures
            r.wf(),
            r.params() == (ProcessingParameters {
                sensitivity,
                adaptive_mode: true,
                noise_gate_enabled: true,
                dynamic_range_enabled: true,
            }),
            r.denoiser().selected() == model,
            r.denoiser().active() == crate::models::NoiseModel::RNNoise,
            r.denoiser().frame_count() == 0,
            r.denoiser().stats().frames() == 0,
            r.stats().frames() == 0,
            r.gate().gate_state() == 0,
            r.analyzer().spectral().frame_size() == frame_size,
            r.analyzer().spectral().sample_rate() == sample_rate,
            r.analyzer().webrtc() is Some,
            r.analyzer().webrtc()->Some_0.history() =~= Seq::<i64>::empty(),
            r.analyzer().webrtc()->Some_0.confidence_threshold() == sensitivity,
            r.compressor().envelope() == 0,
    {
        AdvancedNoisePipeline {
            pre_filter: SpectralGate::new(sample_rate),
            audio_analyzer: AudioAnalyzer::new_with_webrtc(sample_rate, frame_size, sensitivity),
            ai_denoiser: crate::models::EnhancedAudioProcessor::new(model),
            post_processor: DynamicRangeProcessor::new(sample_rate),
            processing_params: ProcessingParameters {
                sensitivity,
                adaptive_mode: true,
                noise_gate_enabled: true,
                dynamic_range_enabled: true,
            },
            pipeline_stats: PipelineStatistics::new(),
        }
    }

    /// Stages before the model: copy the input to a working buffer, gate it
    /// when the noise gate is enabled, and analyze the gated audio. The
    /// returned buffer is what the denoising model must be fed.
    #[verifier::loop_isolation(false)]
    pub fn pre_model_stage(&mut self, input: &Vec<i64>, magnitudes: Option<&Vec<i64>>) -> (r: (
        Vec<i64>,
        AudioContext,
    ))
        requires
            old(self).wf(),
            1 <= input@.len() <= 4096,
            forall|i: int| 0 <= i < input@.len() ==> -MAX_AMP <= #[trigger] input@[i] <= MAX_AMP,
            match magnitudes {
                Some(m) => m@.len() == old(self).analyzer().spectral().frame_size() / 2
                    && forall|i: int| 0 <= i < m@.len() ==> 0 <= #[trigger] m@[i] <= 1_000_000_000,
                None => true,
            },
        ensures
            final(self).wf(),
            final(self).params() == old(self).params(),
            final(self).stats() == old(self).stats(),
            final(self).denoiser() == old(self).denoiser(),
            final(self).compressor() == old(self).compressor(),
            final(self).analyzer().spectral() == old(self).analyzer().spectral(),
            // The working buffer: gated when the pre-filter is on, a plain copy
            // otherwise.
            r.0@ =~= (if old(self).params().noise_gate_enabled {
                spec_gained(input@, final(self).gate().gate_state())
            } else {
                input@
            }),
            r.0@.len() == input@.len(),
            forall|i: int| 0 <= i < r.0@.len() ==> -MAX_AMP <= #[trigger] r.0@[i] <= MAX_AMP,
            // Gate evolution (only when enabled).
            old(self).params().noise_gate_enabled ==> {
                &&& final(self).gate().noise_floor() == spec_floor_after(
                    old(self).gate().noise_floor(),
                    spec_rms(input@),
                )
                &&& final(self).gate().gate_state() == spec_gate_after(
                    old(self).gate().gate_state(),
                    spec_gate_target(
                        spec_rms(input@),
                        final(self).gate().noise_floor(),
                        old(self).gate().threshold_multiplier(),
                    ),
                    old(self).gate().attack_samples(),
                    old(self).gate().release_samples(),
                )
            },
            !old(self).params().noise_gate_enabled ==> final(self).gate() == old(self).gate(),
            // The context, computed on the gated audio. With the fallback
            // detector the vote is exact; with the advanced detector only
            // the vote's shape is determined (its decision is stateful).
            0 <= r.1.voice_probability <= SCALE,
            old(self).analyzer().webrtc() is None ==> {
                &&& final(self).analyzer().webrtc() is None
                &&& final(self).analyzer().vad().history()
                    =~= crate::analysis::spec_history_after(
                    old(self).analyzer().vad().history(),
                    crate::analysis::VoiceActivityDetector::spec_raw_prob(
                        spec_rms(r.0@),
                        old(self).analyzer().vad().energy_threshold(),
                    ),
                )
                &&& r.1.voice_probability == crate::analysis::spec_sum(
                    final(self).analyzer().vad().history(),
                ) / (final(self).analyzer().vad().history().len() as int)
            },
            old(self).analyzer().webrtc() is Some ==> {
                &&& final(self).analyzer().webrtc() is Some
                &&& final(self).analyzer().vad() == old(self).analyzer().vad()
                &&& exists|vote: i64|
                    (vote == 900_000i64 || vote == 100_000i64)
                        && final(self).analyzer().webrtc()->Some_0.history()
                        =~= #[trigger] crate::analysis::spec_history_after(
                        old(self).analyzer().webrtc()->Some_0.history(),
                        vote,
                    ) && r.1.voice_probability == crate::analysis::spec_sum(
                        final(self).analyzer().webrtc()->Some_0.history(),
                    ) / (final(self).analyzer().webrtc()->Some_0.history().len() as int)
            },
            r.1.frequency_profile == (match magnitudes {
                Some(m) => crate::analysis::spec_profile(
                    m@,
                    old(self).analyzer().spectral().sample_rate(),
                    old(self).analyzer().spectral().frame_size(),
                ),
                None => if r.0@.len() == old(self).analyzer().spectral().frame_size() {
                    crate::analysis::FrequencyProfile {
                        total_energy: ((crate::fixed::spec_sum_squares(r.0@) / (
                        r.0@.len() as int)) / (SCALE as int)) as i64,
                        low_freq_ratio: 400_000i64,
                        mid_freq_ratio: 400_000i64,
                        high_freq_ratio: 200_000i64,
                        spectral_centroid: 1000i64,
                        spectral_rolloff: 4000i64,
                    }
                } else {
                    crate::analysis::FrequencyProfile::spec_default()
                },
            }),
            r.1.noise_type == crate::analysis::spec_classify(
                r.1.voice_probability as int,
                r.1.frequency_profile,
            ),
            r.1.recommended_gain == crate::analysis::spec_recommended_gain(
                r.1.voice_probability as int,
                r.1.noise_type,
            ),
    {
        let mut working: Vec<i64> = Vec::new();
        let mut i: usize = 0;
        while i < input.len()
            invariant
                i <= input@.len(),
                working@ =~= input@.subrange(0, i as int),
                self == old(self),
            decreases input@.len() - i,
        {
            working.push(input[i]);
            proof {
                assert(working@ =~= input@.subrange(0, i + 1 as int));
            }
            i = i + 1;
        }
        proof {
            assert(working@ =~= input@);
        }
        if self.processing_params.noise_gate_enabled {
            self.pre_filter.process(&mut working);
            proof {
                assert(working@ =~= spec_gained(input@, self.pre_filter.gate_state()));
            }
        }
        let context = self.audio_analyzer.analyze_audio_context(&working, magnitudes);
        (working, context)
    }

    /// Validate one raw model frame against the buffer the model was fed,
    /// recovering to a passthrough with a zero score when the output is
    /// invalid (wrong length or any sample without a finite amplitude).
    pub fn resolve_model_output(
        &mut self,
        model_input: &Vec<i64>,
        raw: &Vec<crate::models::RawModelSample>,
        vad: i64,
        processing_us: u64,
    ) -> (r: (Vec<i64>, i64))
        requires
            old(self).wf(),
            old(self).denoiser().frame_count() < 0x10_0000_0000,
            old(self).denoiser().stats().frames() < 0x10_0000_0000,
            0 <= vad <= SCALE,
            forall|i: int|
                0 <= i < model_input@.len() ==> -MAX_AMP <= #[trigger] model_input@[i] <= MAX_AMP,
        ensures
            final(self).wf(),
            final(self).params() == old(self).params(),
            final(self).stats() == old(self).stats(),
            final(self).gate() == old(self).gate(),
            final(self).analyzer() == old(self).analyzer(),
            final(self).compressor() == old(self).compressor(),
            final(self).denoiser().frame_count() == old(self).denoiser().frame_count() + 1,
            r.0@ =~= crate::models::spec_resolved_frame(model_input@, raw@),
            r.1 == crate::models::spec_resolved_vad(raw@, model_input@.len() as int, vad),
            0 <= r.1 <= SCALE,
            forall|i: int| 0 <= i < r.0@.len() ==> -MAX_AMP <= #[trigger] r.0@[i] <= MAX_AMP,
    {
        self.ai_denoiser.resolve_frame(model_input, raw, vad, processing_us)
    }

    /// Stages after the model: the adaptive gain controller (or the simple
    /// two-level gain when adaptive mode is off), the dynamic-range
    /// compressor (when enabled), and the statistics update.
    pub fn post_model_stage(
        &mut self,
        working: &mut Vec<i64>,
        context: &AudioContext,
        vad: i64,
        latency_us: u64,
    )
        requires
            old(self).wf(),
            old(self).stats().frames() < 0x10_0000_0000,
            old(working)@.len() <= 4096,
            forall|i: int|
                0 <= i < old(working)@.len() ==> -MAX_AMP <= #[trigger] old(working)@[i]
                    <= MAX_AMP,
            0 <= vad <= SCALE,
            0 <= context.voice_probability <= SCALE,
        ensures
            final(self).wf(),
            final(self).params() == old(self).params(),
            final(self).gate() == old(self).gate(),
            final(self).analyzer() == old(self).analyzer(),
            final(self).denoiser() == old(self).denoiser(),
            // The frame: gained, then compressed when enabled.
            final(working)@ =~= (if old(self).params().dynamic_range_enabled {
                spec_compressed(
                    spec_gained(
                        old(working)@,
                        spec_post_gain(old(self).params().adaptive_mode, vad as int, *context),
                    ),
                    old(self).compressor().envelope(),
                    old(self).compressor().attack_coeff(),
                    old(self).compressor().release_coeff(),
                    old(self).compressor().threshold(),
                    old(self).compressor().ratio(),
                )
            } else {
                spec_gained(
                    old(working)@,
                    spec_post_gain(old(self).params().adaptive_mode, vad as int, *context),
                )
            }),
            forall|i: int|
                0 <= i < final(working)@.len() ==> -MAX_AMP <= #[trigger] final(working)@[i]
                    <= MAX_AMP,
            // Compressor evolution (only when enabled).
            old(self).params().dynamic_range_enabled ==> final(self).compressor().envelope()
                == spec_env_at(
                spec_gained(
                    old(working)@,
                    spec_post_gain(old(self).params().adaptive_mode, vad as int, *context),
                ),
                old(working)@.len() as int,
                old(self).compressor().envelope(),
                old(self).compressor().attack_coeff(),
                old(self).compressor().release_coeff(),
            ),
            !old(self).params().dynamic_range_enabled ==> final(self).compressor() == old(
                self,
            ).compressor(),
            // Statistics: one more frame, this context accounted for.
            final(self).stats().frames() == old(self).stats().frames() + 1,
            final(self).stats().voice_sum() == old(self).stats().voice_sum()
                + context.voice_probability,
            final(self).stats().distribution() =~= old(self).stats().distribution().update(
                PipelineStatistics::spec_type_index(context.noise_type),
                old(self).stats().distribution()[PipelineStatistics::spec_type_index(
                    context.noise_type,
                )] + 1,
            ),
    {
        let gain: i64 = if self.processing_params.adaptive_mode {
            let params = determine_processing_parameters(context);
            calculate_intelligent_gain(vad, context, &params)
        } else {
            if vad > 500_000 {
                800_000
            } else {
                200_000
            }
        };
        apply_gain(working, gain);
        if self.processing_params.dynamic_range_enabled {
            self.post_processor.process(working);
            proof {
                assert(working@ =~= spec_compressed(
                    spec_gained(
                        old(working)@,
                        spec_post_gain(old(self).params().adaptive_mode, vad as int, *context),
                    ),
                    old(self).compressor().envelope(),
                    old(self).compressor().attack_coeff(),
                    old(self).compressor().release_coeff(),
                    old(self).compressor().threshold(),
                    old(self).compressor().ratio(),
                ));
            }
        }
        self.pipeline_stats.record_frame(latency_us, context);
    }

    /// Update pipeline sensitivity, which also drives the analyzer's
    /// detection threshold.
    pub fn update_sensitivity(&mut self, sensitivity: i64)
        requires
            old(self).wf(),
            10_000 <= sensitivity <= 500_000,
        ensures
            final(self).wf(),
            final(self).params().sensitivity == sensitivity,
            final(self).params().adaptive_mode == old(self).params().adaptive_mode,
            final(self).params().noise_gate_enabled == old(self).params().noise_gate_enabled,
            final(self).params().dynamic_range_enabled == old(
                self,
            ).params().dynamic_range_enabled,
            final(self).analyzer().vad().confidence_threshold() == sensitivity,
            final(self).analyzer().vad().energy_threshold() == sensitivity / 10,
            final(self).analyzer().webrtc() is Some
                ==> final(self).analyzer().webrtc()->Some_0.confidence_threshold()
                == sensitivity,
    {
        self.processing_params.sensitivity = sensitivity;
        self.audio_analyzer.set_sensitivity(sensitivity);
    }

    /// Swap the whole configuration at a frame boundary; the sensitivity
    /// propagates into the analyzer's detection threshold.
    pub fn configure(&mut self, params: ProcessingParameters)
        requires
            old(self).wf(),
            params.wf(),
        ensures
            final(self).wf(),
            final(self).params() == params,
            final(self).analyzer().vad().confidence_threshold() == params.sensitivity,
            final(self).analyzer().vad().energy_threshold() == params.sensitivity / 10,
            final(self).analyzer().webrtc() is Some
                ==> final(self).analyzer().webrtc()->Some_0.confidence_threshold()
                == params.sensitivity,
    {
        self.audio_analyzer.set_sensitivity(params.sensitivity);
        self.processing_params = params;
    }

    /// The user's model selection.
    pub fn current_model(&self) -> (r: crate::models::NoiseModel)
        ensures
            r == self.denoiser().selected(),
    {
        self.ai_denoiser.current_model()
    }

    /// Switch the model selection.
    pub fn switch_model(&mut self, model: crate::models::NoiseModel)
        requires
            old(self).wf(),
        ensures
            final(self).wf(),
            final(self).denoiser().selected() == model,
            final(self).denoiser().active() == crate::models::NoiseModel::RNNoise,
            final(self).params() == old(self).params(),
    {
        self.ai_denoiser.switch_model(model);
    }

    /// The pipeline's running statistics.
    pub fn get_statistics(&self) -> (r: &PipelineStatistics)
        ensures
            r == self.stats(),
    {
        &self.pipeline_stats
    }

    /// Frames the model stage has processed so far.
    pub fn frames_processed(&self) -> (r: u64)
        ensures
            r == self.denoiser().frame_count(),
    {
        self.ai_denoiser.frames_processed()
    }

    /// The model's running statistics.
    pub fn get_model_statistics(&self) -> (r: &crate::models::ModelStatistics)
        ensures
            r == self.denoiser().stats(),
    {
        self.ai_denoiser.get_statistics()
    }
}

/// The fade factor at position `i` of a trailing run of `len` samples:
/// 1.0 at its start, falling linearly to 0 at its end.
pub open spec fn spec_fade_factor(i: int, len: int) -> int {
    SCALE as int - (i * SCALE) / len
}

/// Fade out a trailing partial frame that the model never saw: each sample
/// is scaled by a linearly falling fade and by the context's fade gain, so
/// the stream ends smoothly instead of cutting off.
#[verifier::loop_isolation(false)]
pub fn fade_partial_frame(tail: &Vec<i64>, fade_gain: i64) -> (r: Vec<i64>)
    requires
        0 <= fade_gain <= SCALE,
        1 <= tail@.len() <= 4096,
        forall|i: int| 0 <= i < tail@.len() ==> -MAX_AMP <= #[trigger] tail@[i] <= MAX_AMP,
    ensures
        r@.len() == tail@.len(),
        forall|i: int|
            0 <= i < tail@.len() ==> #[trigger] r@[i] == spec_scaled(
                spec_scaled(tail@[i] as int, spec_fade_factor(i, tail@.len() as int)) as i64
                    as int,
                fade_gain as int,
            ) as i64,
{
    let len = tail.len();
    let mut out: Vec<i64> = Vec::new();
    let mut i: usize = 0;
    while i < len
        invariant
            i <= len,
            len == tail@.len(),
            out@.len() == i,
            forall|k: int|
                0 <= k < i ==> #[trigger] out@[k] == spec_scaled(
                    spec_scaled(tail@[k] as int, spec_fade_factor(k, len as int)) as i64 as int,
                    fade_gain as int,
                ) as i64,
        decreases len - i,
    {
        proof {
            assert(0 <= ((i as int) * (SCALE as int)) / (len as int) <= SCALE as int)
                by (nonlinear_arith)
                requires
                    0 <= i && (i as int) < len as int,
                    0 < len,
            ;
        }
        let fade = SCALE - ((i as i64) * SCALE) / (len as i64);
        let faded = scaled_mul(tail[i], fade);
        out.push(scaled_mul(faded, fade_gain));
        i = i + 1;
    }
    out
}

} // verus!
