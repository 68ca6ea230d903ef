//! Audio context analysis: voice-activity detection, spectral features and
//! noise classification, feeding the adaptive gain stage.
//!
//! Units: probabilities, gains, energies and band ratios are fixed point
//! (`SCALE` per 1.0); frequencies (centroid, rolloff) are plain Hertz.

use vstd::prelude::*;
use crate::{MAX_AMP, SCALE};
use crate::fixed::{rms, spec_rms};

verus! {

/// The kind of sound a frame most likely holds.
#[derive(Debug, Clone, Copy, PartialEq, Eq, Structural)]
pub enum NoiseType {
    /// Silence or very low-level background noise.
    Silence,
    /// Human speech or vocal sounds.
    Speech,
    /// Keyboard typing, mouse clicks.
    Keyboard,
    /// HVAC, fans, air conditioning.
    HVAC,
    /// Music or complex audio content.
    Music,
    /// Unclassified noise.
    Unknown,
}

impl NoiseType {
    /// The display name of the noise type.
    pub fn as_str(&self) -> (r: &'static str)
        ensures
            r@ == match self {
                NoiseType::Silence => "Silence"@,
                NoiseType::Speech => "Speech"@,
                NoiseType::Keyboard => "Keyboard"@,
                NoiseType::HVAC => "HVAC"@,
                NoiseType::Music => "Music"@,
                NoiseType::Unknown => "Unknown"@,
            },
    {
        match self {
            NoiseType::Silence => "Silence",
            NoiseType::Speech => "Speech",
            NoiseType::Keyboard => "Keyboard",
            NoiseType::HVAC => "HVAC",
            NoiseType::Music => "Music",
            NoiseType::Unknown => "Unknown",
        }
    }
}

/// Frequency-domain characteristics of one frame.
#[derive(Debug, Clone, Copy, PartialEq, Eq, Structural)]
pub struct FrequencyProfile {
    /// Total energy of the frame (fixed point, `SCALE` per 1.0).
    pub total_energy: i64,
    /// Share of energy below a quarter of the band (fixed point).
    pub low_freq_ratio: i64,
    /// Share of energy in the middle half of the band (fixed point).
    pub mid_freq_ratio: i64,
    /// Share of energy in the top quarter of the band (fixed point).
    pub high_freq_ratio: i64,
    /// Energy-weighted mean frequency, in Hz.
    pub spectral_centroid: i64,
    /// Frequency below which 85% of the squared-magnitude energy lies, in Hz.
    pub spectral_rolloff: i64,
}

impl Default for FrequencyProfile {
    /// The all-zero profile, reported when a frame carries no information.
    fn default() -> (r: FrequencyProfile)
        ensures
            r == FrequencyProfile::spec_default(),
    {
        FrequencyProfile {
            total_energy: 0,
            low_freq_ratio: 0,
            mid_freq_ratio: 0,
            high_freq_ratio: 0,
            spectral_centroid: 0,
            spectral_rolloff: 0,
        }
    }
}

impl FrequencyProfile {
    pub open spec fn spec_default() -> FrequencyProfile {
        FrequencyProfile {
            total_energy: 0,
            low_freq_ratio: 0,
            mid_freq_ratio: 0,
            high_freq_ratio: 0,
            spectral_centroid: 0,
            spectral_rolloff: 0,
        }
    }
}

/// The smoothed probability after one detection: the mean of the last ten
/// raw decisions (fewer while the history is still filling).
pub open spec fn spec_history_after(history: Seq<i64>, prob: i64) -> Seq<i64> {
    let pushed = history.push(prob);
    if pushed.len() > 10 {
        pushed.skip(pushed.len() - 10)
    } else {
        pushed
    }
}

/// Sum of a sequence of fixed-point values.
pub open spec fn spec_sum(s: Seq<i64>) -> int
    decreases s.len(),
{
    if s.len() == 0 {
        0
    } else {
        spec_sum(s.drop_last()) + s.last()
    }
}

/// Energy-based voice activity detection: a frame whose RMS amplitude
/// exceeds the energy threshold votes for speech with probability 0.8,
/// otherwise 0.2, and votes are smoothed over the last ten frames.
pub struct VoiceActivityDetector {
    /// Recent raw decisions, oldest first, at most ten.
    history: Vec<i64>,
    confidence_threshold: i64,
    energy_threshold: i64,
}

impl VoiceActivityDetector {
    pub closed spec fn history(&self) -> Seq<i64> {
        self.history@
    }

    pub closed spec fn confidence_threshold(&self) -> int {
        self.confidence_threshold as int
    }

    pub closed spec fn energy_threshold(&self) -> int {
        self.energy_threshold as int
    }

    pub closed spec fn wf(&self) -> bool {
        &&& self.history@.len() <= 10
        &&& forall|i: int| 0 <= i < self.history@.len() ==> 0 <= #[trigger] self.history@[i] <= SCALE
        &&& 0 <= self.energy_threshold <= SCALE
        &&& 0 <= self.confidence_threshold <= SCALE
    }

    /// The raw decision for a frame with the given RMS amplitude.
    pub open spec fn spec_raw_prob(rms_value: int, threshold: int) -> i64 {
        if rms_value > threshold {
            800_000i64
        } else {
            200_000i64
        }
    }

    pub fn new(sample_rate: u32, sensitivity: i64) -> (r: VoiceActivityDetector)
        requires
            0 <= sensitivity <= SCALE,
        ensures
            r.wf(),
            r.history() =~= Seq::<i64>::empty(),
            r.confidence_threshold() == sensitivity,
            r.energy_threshold() == 10_000,
    {
        let _ = sample_rate;
        VoiceActivityDetector {
            history: Vec::new(),
            confidence_threshold: sensitivity,
            energy_threshold: 10_000,
        }
    }

    /// Score one frame, returning the smoothed speech probability.
    #[verifier::loop_isolation(false)]
    pub fn detect(&mut self, samples: &Vec<i64>) -> (r: i64)
        requires
            old(self).wf(),
            1 <= samples@.len() <= 4096,
            forall|i: int|
                0 <= i < samples@.len() ==> -MAX_AMP <= #[trigger] samples@[i] <= MAX_AMP,
        ensures
            final(self).wf(),
            final(self).confidence_threshold() == old(self).confidence_threshold(),
            final(self).energy_threshold() == old(self).energy_threshold(),
            final(self).history() =~= spec_history_after(
                old(self).history(),
                Self::spec_raw_prob(spec_rms(samples@), old(self).energy_threshold()),
            ),
            r == spec_sum(final(self).history()) / (final(self).history().len() as int),
            0 <= r <= SCALE,
    {
        let level = rms(samples);
        let prob: i64 = if level > self.energy_threshold {
            800_000
        } else {
            200_000
        };
        self.history.push(prob);
        if self.history.len() > 10 {
            self.history.remove(0);
            proof {
                assert(self.history@ =~= spec_history_after(old(self).history@, prob));
            }
        } else {
            proof {
                assert(self.history@ =~= spec_history_after(old(self).history@, prob));
            }
        }
        let mut sum: i64 = 0;
        let mut i: usize = 0;
        while i < self.history.len()
            invariant
                i <= self.history@.len(),
                sum == spec_sum(self.history@.subrange(0, i as int)),
                0 <= sum <= i * SCALE,
                self.history@.len() <= 10,
                forall|k: int| 0 <= k < self.history@.len() ==> 0 <= #[trigger] self.history@[k] <= SCALE,
                self.history@ =~= spec_history_after(old(self).history@, prob),
                self.confidence_threshold == old(self).confidence_threshold,
                self.energy_threshold == old(self).energy_threshold,
            decreases self.history@.len() - i,
        {
            proof {
                assert(self.history@.subrange(0, i + 1 as int).drop_last() =~= self.history@
                    .subrange(0, i as int));
            }
            sum = sum + self.history[i];
            i = i + 1;
        }
        proof {
            assert(self.history@.subrange(0, self.history@.len() as int) =~= self.history@);
        }
        let avg = sum / (self.history.len() as i64);
        proof {
            assert(0 <= (sum as int) / (self.history@.len() as int) <= SCALE)
                by (nonlinear_arith)
                requires
                    0 <= sum as int <= self.history@.len() * SCALE,
                    1 <= self.history@.len() <= 10,
            ;
        }
        avg
    }

    /// Update detection sensitivity; the energy threshold tracks a tenth
    /// of the confidence threshold.
    pub fn set_sensitivity(&mut self, sensitivity: i64)
        requires
            old(self).wf(),
            0 <= sensitivity <= SCALE,
        ensures
            final(self).wf(),
            final(self).confidence_threshold() == sensitivity,
            final(self).energy_threshold() == sensitivity / 10,
            final(self).history() == old(self).history(),
    {
        self.confidence_threshold = sensitivity;
        self.energy_threshold = sensitivity / 10;
    }
}

#[verifier::external_type_specification]
#[verifier::external_body]
pub struct ExVad(webrtc_vad::Vad);

/// Relies on webrtc_vad::Vad::new_with_rate: a fresh detector instance for
/// 48 kHz input.
#[verifier::external_body]
fn new_vad_48k() -> (r: webrtc_vad::Vad) {
    webrtc_vad::Vad::new_with_rate(webrtc_vad::SampleRate::Rate48kHz)
}

/// Relies on webrtc_vad::Vad::is_voice_segment: a voice/non-voice decision
/// that depends on the detector's internal state; an unsupported frame
/// length counts as non-voice.
#[verifier::external_body]
fn vad_is_voice(vad: &mut webrtc_vad::Vad, samples: &Vec<i16>) -> (r: bool)
    requires
        samples@.len() > 0,
{
    vad.is_voice_segment(samples.as_slice()).unwrap_or(false)
}

/// Voice activity detection backed by the WebRTC detector: its binary
/// decision votes 0.9 for speech and 0.1 against, smoothed over the last
/// ten frames exactly as the energy-based detector smooths its votes.
pub struct WebRtcVoiceDetector {
    vad: webrtc_vad::Vad,
    /// Recent raw decisions, oldest first, at most ten.
    history: Vec<i64>,
    confidence_threshold: i64,
}

impl WebRtcVoiceDetector {
    pub closed spec fn history(&self) -> Seq<i64> {
        self.history@
    }

    pub closed spec fn confidence_threshold(&self) -> int {
        self.confidence_threshold as int
    }

    pub closed spec fn wf(&self) -> bool {
        &&& self.history@.len() <= 10
        &&& forall|i: int| 0 <= i < self.history@.len() ==> 0 <= #[trigger] self.history@[i] <= SCALE
        &&& 0 <= self.confidence_threshold <= SCALE
    }

    pub fn new(sensitivity: i64) -> (r: WebRtcVoiceDetector)
        requires
            0 <= sensitivity <= SCALE,
        ensures
            r.wf(),
            r.history() =~= Seq::<i64>::empty(),
            r.confidence_threshold() == sensitivity,
    {
        WebRtcVoiceDetector {
            vad: new_vad_48k(),
            history: Vec::new(),
            confidence_threshold: sensitivity,
        }
    }

    /// Score one frame: the detector's binary decision becomes a raw vote
    /// of 0.9 or 0.1, and the returned probability is the mean of the last
    /// ten votes. Which way the detector decides depends on its internal
    /// state, so only the vote's shape is pinned down.
    #[verifier::loop_isolation(false)]
    pub fn detect(&mut self, samples: &Vec<i64>) -> (r: i64)
        requires
            old(self).wf(),
            1 <= samples@.len() <= 4096,
            forall|i: int|
                0 <= i < samples@.len() ==> -MAX_AMP <= #[trigger] samples@[i] <= MAX_AMP,
        ensures
            final(self).wf(),
            final(self).confidence_threshold() == old(self).confidence_threshold(),
            exists|vote: i64|
                (vote == 900_000i64 || vote == 100_000i64) && final(self).history()
                    =~= spec_history_after(old(self).history(), vote) && r == spec_sum(
                    final(self).history(),
                ) / (final(self).history().len() as int),
            0 <= r <= SCALE,
    {
        let mut pcm: Vec<i16> = Vec::new();
        let mut i: usize = 0;
        while i < samples.len()
            invariant
                i <= samples@.len(),
                pcm@.len() == i,
            decreases samples@.len() - i,
        {
            let s = samples[i];
            let p = s * 32767;
            let scaled: i64 = if p >= 0 {
                p / SCALE
            } else {
                -((-p) / SCALE)
            };
            let clamped = crate::fixed::clamp_i64(scaled, -32768, 32767);
            pcm.push(clamped as i16);
            i = i + 1;
        }
        let is_speech = vad_is_voice(&mut self.vad, &pcm);
        let prob: i64 = if is_speech {
            900_000
        } else {
            100_000
        };
        self.history.push(prob);
        if self.history.len() > 10 {
            self.history.remove(0);
        }
        proof {
            assert(self.history@ =~= spec_history_after(old(self).history@, prob));
        }
        let ghost window = self.history@;
        let hist_len = self.history.len();
        let mut sum: i64 = 0;
        let mut j: usize = 0;
        while j < hist_len
            invariant
                j <= window.len(),
                hist_len == window.len(),
                1 <= hist_len <= 10,
                self.history@ == window,
                forall|q: int| 0 <= q < window.len() ==> 0 <= #[trigger] window[q] <= SCALE,
                sum == spec_sum(window.subrange(0, j as int)),
                0 <= sum <= j * SCALE,
            decreases hist_len - j,
        {
            proof {
                assert(window.subrange(0, j + 1 as int).drop_last() =~= window.subrange(
                    0,
                    j as int,
                ));
            }
            sum = sum + self.history[j];
            j = j + 1;
        }
        proof {
            assert(window.subrange(0, hist_len as int) =~= window);
            assert(0 <= (sum as int) / (hist_len as int) <= SCALE as int) by (nonlinear_arith)
                requires
                    0 <= sum as int <= (hist_len as int) * (SCALE as int),
                    1 <= hist_len <= 10,
            ;
        }
        let result = sum / (hist_len as i64);
        proof {
            assert((prob == 900_000i64 || prob == 100_000i64) && self.history()
                =~= spec_history_after(old(self).history(), prob) && result == spec_sum(
                self.history(),
            ) / (self.history().len() as int));
            assert(exists|vote: i64|
                (vote == 900_000i64 || vote == 100_000i64) && self.history()
                    =~= #[trigger] spec_history_after(old(self).history(), vote) && result
                    == spec_sum(self.history()) / (self.history().len() as int));
        }
        result
    }

    /// Update detection sensitivity.
    pub fn set_sensitivity(&mut self, sensitivity: i64)
        requires
            old(self).wf(),
            0 <= sensitivity <= SCALE,
        ensures
            final(self).wf(),
            final(self).confidence_threshold() == sensitivity,
            final(self).history() == old(self).history(),
    {
        self.confidence_threshold = sensitivity;
    }
}

/// Energy-weighted frequency sum: each magnitude weighted by its bin's
/// frequency `k * rate / fsize` in Hz.
pub open spec fn spec_weighted_sum(mags: Seq<i64>, rate: int, fsize: int) -> int
    decreases mags.len(),
{
    if mags.len() == 0 {
        0
    } else {
        spec_weighted_sum(mags.drop_last(), rate, fsize) + mags.last() * (((mags.len() - 1) * rate)
            / fsize)
    }
}

/// The rolloff frequency: walk the bins from the bottom accumulating squared
/// magnitudes until the threshold is reached, and report that bin's
/// frequency (the last bin's if the threshold is never reached).
pub open spec fn spec_rolloff_from(
    mags: Seq<i64>,
    k: int,
    acc: int,
    threshold: int,
    rate: int,
    fsize: int,
) -> int
    decreases mags.len() - k,
{
    if k < 0 || k >= mags.len() {
        ((mags.len() - 1) * rate) / fsize
    } else if acc + mags[k] * mags[k] >= threshold {
        (k * rate) / fsize
    } else {
        spec_rolloff_from(mags, k + 1, acc + mags[k] * mags[k], threshold, rate, fsize)
    }
}

/// The full spectral feature set derived from a magnitude spectrum: band
/// ratios over quarters of the spectrum, centroid, and 85% energy rolloff.
pub open spec fn spec_profile(mags: Seq<i64>, rate: int, fsize: int) -> FrequencyProfile {
    let total = spec_sum(mags);
    if total <= 0 {
        FrequencyProfile::spec_default()
    } else {
        let len = mags.len() as int;
        let total_sq = crate::fixed::spec_sum_squares(mags);
        FrequencyProfile {
            total_energy: total as i64,
            low_freq_ratio: ((spec_sum(mags.subrange(0, len / 4)) * SCALE) / total) as i64,
            mid_freq_ratio: ((spec_sum(mags.subrange(len / 4, len / 4 + len / 2)) * SCALE)
                / total) as i64,
            high_freq_ratio: ((spec_sum(mags.subrange((3 * len) / 4, len)) * SCALE)
                / total) as i64,
            spectral_centroid: (spec_weighted_sum(mags, rate, fsize) / total) as i64,
            spectral_rolloff: spec_rolloff_from(
                mags,
                0,
                0,
                (total_sq * 85) / 100,
                rate,
                fsize,
            ) as i64,
        }
    }
}

/// Spectral feature extraction over a frame's magnitude spectrum.
///
/// The magnitude spectrum itself comes from the frame's windowed Fourier
/// transform, which the caller supplies; when no spectrum is available the
/// analyzer falls back to a flat energy-only estimate.
pub struct SpectralAnalyzer {
    frame_size: usize,
    sample_rate: u32,
}

impl SpectralAnalyzer {
    pub closed spec fn frame_size(&self) -> int {
        self.frame_size as int
    }

    pub closed spec fn sample_rate(&self) -> int {
        self.sample_rate as int
    }

    pub closed spec fn wf(&self) -> bool {
        &&& 2 <= self.frame_size <= 4096
        &&& 1000 <= self.sample_rate <= 1_000_000
    }

    pub fn new(frame_size: usize, sample_rate: u32) -> (r: SpectralAnalyzer)
        requires
            2 <= frame_size <= 4096,
            1000 <= sample_rate <= 1_000_000,
        ensures
            r.wf(),
            r.frame_size() == frame_size,
            r.sample_rate() == sample_rate,
    {
        SpectralAnalyzer { frame_size, sample_rate }
    }

    /// Flat energy-only estimate of a frame's spectrum, used when no
    /// magnitude spectrum is available: measured total energy, an assumed
    /// 40/40/20 band split, and nominal centroid and rolloff.
    pub fn analyze(&self, samples: &Vec<i64>) -> (r: FrequencyProfile)
        requires
            self.wf(),
            forall|i: int|
                0 <= i < samples@.len() ==> -MAX_AMP <= #[trigger] samples@[i] <= MAX_AMP,
        ensures
            samples@.len() != self.frame_size() ==> r == FrequencyProfile::spec_default(),
            samples@.len() == self.frame_size() ==> r == (FrequencyProfile {
                total_energy: ((crate::fixed::spec_sum_squares(samples@) / (samples@.len() as int))
                    / (SCALE as int)) as i64,
                low_freq_ratio: 400_000i64,
                mid_freq_ratio: 400_000i64,
                high_freq_ratio: 200_000i64,
                spectral_centroid: 1000i64,
                spectral_rolloff: 4000i64,
            }),
    {
        if samples.len() != self.frame_size {
            return FrequencyProfile::default();
        }
        let level = crate::fixed::mean_square(samples);
        FrequencyProfile {
            total_energy: level / SCALE,
            low_freq_ratio: 400_000,
            mid_freq_ratio: 400_000,
            high_freq_ratio: 200_000,
            spectral_centroid: 1000,
            spectral_rolloff: 4000,
        }
    }

    /// Exact spectral features from a magnitude spectrum (one magnitude per
    /// frequency bin over the lower half of the spectrum).
    #[verifier::loop_isolation(false)]
    pub fn analyze_magnitudes(&self, magnitudes: &Vec<i64>) -> (r: FrequencyProfile)
        requires
            self.wf(),
            magnitudes@.len() == self.frame_size() / 2,
            forall|i: int|
                0 <= i < magnitudes@.len() ==> 0 <= #[trigger] magnitudes@[i] <= 1_000_000_000,
        ensures
            r == spec_profile(magnitudes@, self.sample_rate(), self.frame_size()),
    {
        let len = magnitudes.len();
        let ghost mg = magnitudes@;
        let total = sum_range(magnitudes, 0, len);
        proof {
            assert(mg.subrange(0, len as int) =~= mg);
        }
        if total <= 0 {
            return FrequencyProfile::default();
        }
        let low = sum_range(magnitudes, 0, len / 4);
        let mid = sum_range(magnitudes, len / 4, len / 4 + len / 2);
        let high = sum_range(magnitudes, (3 * len) / 4, len);
        proof {
            lemma_sum_bounds(mg.subrange(0, len as int / 4));
            lemma_sum_bounds(mg.subrange(len as int / 4, len as int / 4 + len as int / 2));
            lemma_sum_bounds(mg.subrange((3 * len) as int / 4, len as int));
        }
        let low_ratio = (low * SCALE) / total;
        let mid_ratio = (mid * SCALE) / total;
        let high_ratio = (high * SCALE) / total;
        let centroid = self.weighted_sum(magnitudes) / total;
        let rolloff = self.rolloff(magnitudes);
        FrequencyProfile {
            total_energy: total,
            low_freq_ratio: low_ratio,
            mid_freq_ratio: mid_ratio,
            high_freq_ratio: high_ratio,
            spectral_centroid: centroid,
            spectral_rolloff: rolloff,
        }
    }

    /// Energy-weighted frequency sum over all bins.
    #[verifier::loop_isolation(false)]
    fn weighted_sum(&self, magnitudes: &Vec<i64>) -> (r: i64)
        requires
            self.wf(),
            magnitudes@.len() == self.frame_size() / 2,
            forall|i: int|
                0 <= i < magnitudes@.len() ==> 0 <= #[trigger] magnitudes@[i] <= 1_000_000_000,
        ensures
            r == spec_weighted_sum(magnitudes@, self.sample_rate(), self.frame_size()),
            r >= 0,
    {
        let mut acc: i64 = 0;
        let mut i: usize = 0;
        while i < magnitudes.len()
            invariant
                i <= magnitudes@.len(),
                acc == spec_weighted_sum(
                    magnitudes@.subrange(0, i as int),
                    self.sample_rate(),
                    self.frame_size(),
                ),
                0 <= acc <= i * 1_000_000_000_000_000,
            decreases magnitudes@.len() - i,
        {
            proof {
                assert((i as int) * (self.sample_rate() as int) <= 2048 * 1_000_000)
                    by (nonlinear_arith)
                    requires
                        0 <= i as int <= 2048,
                        0 <= self.sample_rate() <= 1_000_000,
                ;
            }
            let freq = ((i as u64) * (self.sample_rate as u64)) / (self.frame_size as u64);
            proof {
                assert(freq <= 1_000_000) by (nonlinear_arith)
                    requires
                        freq == ((i as int) * (self.sample_rate() as int)) / self.frame_size(),
                        0 <= i as int <= self.frame_size(),
                        self.frame_size() >= 2,
                        0 <= self.sample_rate() <= 1_000_000,
                ;
                assert(0 <= (magnitudes@[i as int] as int) * (freq as int)
                    <= 1_000_000_000_000_000) by (nonlinear_arith)
                    requires
                        0 <= magnitudes@[i as int] <= 1_000_000_000,
                        0 <= freq <= 1_000_000int,
                ;
                assert(magnitudes@.subrange(0, i + 1 as int).drop_last() =~= magnitudes@.subrange(
                    0,
                    i as int,
                ));
            }
            acc = acc + magnitudes[i] * (freq as i64);
            i = i + 1;
        }
        proof {
            assert(magnitudes@.subrange(0, magnitudes@.len() as int) =~= magnitudes@);
        }
        acc
    }

    /// The 85% squared-magnitude energy rolloff frequency.
    #[verifier::loop_isolation(false)]
    fn rolloff(&self, magnitudes: &Vec<i64>) -> (r: i64)
        requires
            self.wf(),
            1 <= magnitudes@.len() <= 2048,
            forall|i: int|
                0 <= i < magnitudes@.len() ==> 0 <= #[trigger] magnitudes@[i] <= 1_000_000_000,
        ensures
            r == spec_rolloff_from(
                magnitudes@,
                0,
                0,
                (crate::fixed::spec_sum_squares(magnitudes@) * 85) / 100,
                self.sample_rate(),
                self.frame_size(),
            ),
    {
        let len = magnitudes.len();
        let mut total_sq: u128 = 0;
        let mut i: usize = 0;
        while i < len
            invariant
                i <= magnitudes@.len(),
                len == magnitudes@.len(),
                total_sq == crate::fixed::spec_sum_squares(magnitudes@.subrange(0, i as int)),
                total_sq <= i * 1_000_000_000_000_000_000,
            decreases magnitudes@.len() - i,
        {
            let m = magnitudes[i] as u128;
            proof {
                assert(0 <= (magnitudes@[i as int] as int) * (magnitudes@[i as int] as int)
                    <= 1_000_000_000_000_000_000) by (nonlinear_arith)
                    requires
                        0 <= magnitudes@[i as int] <= 1_000_000_000,
                ;
                assert(magnitudes@.subrange(0, i + 1 as int).drop_last() =~= magnitudes@.subrange(
                    0,
                    i as int,
                ));
            }
            total_sq = total_sq + m * m;
            i = i + 1;
        }
        proof {
            assert(magnitudes@.subrange(0, magnitudes@.len() as int) =~= magnitudes@);
        }
        let threshold: u128 = (total_sq * 85) / 100;
        let mut acc: u128 = 0;
        let mut k: usize = 0;
        while k < len
            invariant
                k <= magnitudes@.len(),
                len == magnitudes@.len(),
                acc == crate::fixed::spec_sum_squares(magnitudes@.subrange(0, k as int)),
                acc <= k * 1_000_000_000_000_000_000,
                threshold == (crate::fixed::spec_sum_squares(magnitudes@) * 85) / 100,
                spec_rolloff_from(
                    magnitudes@,
                    0,
                    0,
                    threshold as int,
                    self.sample_rate(),
                    self.frame_size(),
                ) == spec_rolloff_from(
                    magnitudes@,
                    k as int,
                    acc as int,
                    threshold as int,
                    self.sample_rate(),
                    self.frame_size(),
                ),
            decreases magnitudes@.len() - k,
        {
            let m = magnitudes[k] as u128;
            proof {
                assert(0 <= (magnitudes@[k as int] as int) * (magnitudes@[k as int] as int)
                    <= 1_000_000_000_000_000_000) by (nonlinear_arith)
                    requires
                        0 <= magnitudes@[k as int] <= 1_000_000_000,
                ;
                assert((k as int) * (self.sample_rate() as int) <= 2048 * 1_000_000)
                    by (nonlinear_arith)
                    requires
                        0 <= k as int <= 2048,
                        0 <= self.sample_rate() <= 1_000_000,
                ;
            }
            if acc + m * m >= threshold {
                let freq = ((k as u64) * (self.sample_rate as u64)) / (self.frame_size as u64);
                return freq as i64;
            }
            proof {
                assert(magnitudes@.subrange(0, k + 1 as int).drop_last() =~= magnitudes@.subrange(
                    0,
                    k as int,
                ));
            }
            acc = acc + m * m;
            k = k + 1;
        }
        proof {
            assert(((len - 1) as int) * (self.sample_rate() as int) <= 2048 * 1_000_000)
                by (nonlinear_arith)
                requires
                    0 <= (len - 1) as int <= 2048,
                    0 <= self.sample_rate() <= 1_000_000,
            ;
        }
        let freq = (((len - 1) as u64) * (self.sample_rate as u64)) / (self.frame_size as u64);
        freq as i64
    }
}

/// Sum of the nonnegative magnitudes in `[from, to)`.
#[verifier::loop_isolation(false)]
fn sum_range(values: &Vec<i64>, from: usize, to: usize) -> (r: i64)
    requires
        from <= to <= values@.len(),
        values@.len() <= 4096,
        forall|i: int| 0 <= i < values@.len() ==> 0 <= #[trigger] values@[i] <= 1_000_000_000,
    ensures
        r == spec_sum(values@.subrange(from as int, to as int)),
        0 <= r <= 4096 * 1_000_000_000,
{
    let mut acc: i64 = 0;
    let mut i: usize = from;
    while i < to
        invariant
            from <= i <= to,
            acc == spec_sum(values@.subrange(from as int, i as int)),
            0 <= acc <= (i - from) * 1_000_000_000,
        decreases to - i,
    {
        proof {
            assert(values@.subrange(from as int, i + 1 as int).drop_last() =~= values@.subrange(
                from as int,
                i as int,
            ));
        }
        acc = acc + values[i];
        i = i + 1;
    }
    acc
}

/// A sum of values in `[0, 1e9]` is itself bounded by `len * 1e9`.
proof fn lemma_sum_bounds(s: Seq<i64>)
    requires
        forall|i: int| 0 <= i < s.len() ==> 0 <= #[trigger] s[i] <= 1_000_000_000,
    ensures
        0 <= spec_sum(s) <= s.len() * 1_000_000_000,
    decreases s.len(),
{
    if s.len() > 0 {
        lemma_sum_bounds(s.drop_last());
    }
}

/// Complete audio context for one frame.
#[derive(Debug, Clone, Copy, PartialEq, Eq, Structural)]
pub struct AudioContext {
    /// Voice activity probability (fixed point, `SCALE` per 1.0).
    pub voice_probability: i64,
    /// Detected noise type.
    pub noise_type: NoiseType,
    /// Frequency-domain characteristics.
    pub frequency_profile: FrequencyProfile,
    /// Recommended processing gain (fixed point).
    pub recommended_gain: i64,
}

/// The noise classification rules, applied in priority order with the first
/// match winning: near-zero energy is silence; a confident voice vote is
/// speech; bright high-band energy is keyboard noise; low-band energy with a
/// low rolloff is HVAC; strong mid-band energy with a bright centroid is
/// music; anything else is unknown.
pub open spec fn spec_classify(voice_prob: int, p: FrequencyProfile) -> NoiseType {
    if p.total_energy < 1_000 {
        NoiseType::Silence
    } else if voice_prob > 700_000 {
        NoiseType::Speech
    } else if p.high_freq_ratio > 300_000 && p.spectral_centroid > 2000 {
        NoiseType::Keyboard
    } else if p.low_freq_ratio > 600_000 && p.spectral_rolloff < 500 {
        NoiseType::HVAC
    } else if p.mid_freq_ratio > 400_000 && p.spectral_centroid > 1000 {
        NoiseType::Music
    } else {
        NoiseType::Unknown
    }
}

/// The gain recommended for each noise type; for unclassified sound the
/// voice probability decides between a speech-like and a noise-like gain.
pub open spec fn spec_recommended_gain(voice_prob: int, t: NoiseType) -> i64 {
    match t {
        NoiseType::Silence => 100_000i64,
        NoiseType::Speech => 900_000i64,
        NoiseType::Keyboard => 200_000i64,
        NoiseType::HVAC => 150_000i64,
        NoiseType::Music => 600_000i64,
        NoiseType::Unknown => if voice_prob > 500_000 {
            800_000i64
        } else {
            200_000i64
        },
    }
}

/// Per-frame audio analysis: voice activity, spectral features, noise
/// classification and a recommended gain, with a bounded context history.
pub struct AudioAnalyzer {
    /// The energy-based fallback detector, always present.
    vad: VoiceActivityDetector,
    /// The advanced detector, primary when available.
    webrtc: Option<WebRtcVoiceDetector>,
    spectral_analyzer: SpectralAnalyzer,
    /// Most recent contexts, oldest first, at most fifty.
    context_history: Vec<AudioContext>,
}

impl AudioAnalyzer {
    pub closed spec fn vad(&self) -> VoiceActivityDetector {
        self.vad
    }

    pub closed spec fn webrtc(&self) -> Option<WebRtcVoiceDetector> {
        self.webrtc
    }

    pub closed spec fn spectral(&self) -> SpectralAnalyzer {
        self.spectral_analyzer
    }

    pub closed spec fn history(&self) -> Seq<AudioContext> {
        self.context_history@
    }

    pub closed spec fn wf(&self) -> bool {
        &&& self.vad.wf()
        &&& (self.webrtc is Some ==> self.webrtc->Some_0.wf())
        &&& self.spectral_analyzer.wf()
        &&& self.context_history@.len() <= 50
    }

    /// An analyzer with the energy-based fallback detector, for when no
    /// advanced detector is available.
    pub fn new(sample_rate: u32, frame_size: usize, sensitivity: i64) -> (r: AudioAnalyzer)
        requires
            2 <= frame_size <= 4096,
            1000 <= sample_rate <= 1_000_000,
            0 <= sensitivity <= SCALE,
        ensures
            r.wf(),
            r.webrtc() is None,
            r.vad().history() =~= Seq::<i64>::empty(),
            r.vad().confidence_threshold() == sensitivity,
            r.spectral().frame_size() == frame_size,
            r.spectral().sample_rate() == sample_rate,
            r.history() =~= Seq::<AudioContext>::empty(),
    {
        AudioAnalyzer {
            vad: VoiceActivityDetector::new(sample_rate, sensitivity),
            webrtc: None,
            spectral_analyzer: SpectralAnalyzer::new(frame_size, sample_rate),
            context_history: Vec::new(),
        }
    }

    /// An analyzer with the advanced detector as the primary voice-activity
    /// source (the energy-based detector stays as fallback state).
    pub fn new_with_webrtc(sample_rate: u32, frame_size: usize, sensitivity: i64) -> (r:
        AudioAnalyzer)
        requires
            2 <= frame_size <= 4096,
            1000 <= sample_rate <= 1_000_000,
            0 <= sensitivity <= SCALE,
        ensures
            r.wf(),
            r.webrtc() is Some,
            r.webrtc()->Some_0.history() =~= Seq::<i64>::empty(),
            r.webrtc()->Some_0.confidence_threshold() == sensitivity,
            r.vad().history() =~= Seq::<i64>::empty(),
            r.vad().confidence_threshold() == sensitivity,
            r.spectral().frame_size() == frame_size,
            r.spectral().sample_rate() == sample_rate,
            r.history() =~= Seq::<AudioContext>::empty(),
    {
        AudioAnalyzer {
            vad: VoiceActivityDetector::new(sample_rate, sensitivity),
            webrtc: Some(WebRtcVoiceDetector::new(sensitivity)),
            spectral_analyzer: SpectralAnalyzer::new(frame_size, sample_rate),
            context_history: Vec::new(),
        }
    }

    /// Classify the frame's noise type from the voice probability and the
    /// frequency profile, by the priority rules of `spec_classify`.
    pub fn classify_noise_type(&self, voice_prob: i64, freq_profile: &FrequencyProfile) -> (r:
        NoiseType)
        ensures
            r == spec_classify(voice_prob as int, *freq_profile),
    {
        if freq_profile.total_energy < 1_000 {
            return NoiseType::Silence;
        }
        if voice_prob > 700_000 {
            return NoiseType::Speech;
        }
        if freq_profile.high_freq_ratio > 300_000 && freq_profile.spectral_centroid > 2000 {
            return NoiseType::Keyboard;
        }
        if freq_profile.low_freq_ratio > 600_000 && freq_profile.spectral_rolloff < 500 {
            return NoiseType::HVAC;
        }
        if freq_profile.mid_freq_ratio > 400_000 && freq_profile.spectral_centroid > 1000 {
            return NoiseType::Music;
        }
        NoiseType::Unknown
    }

    /// The processing gain recommended for the classified noise type.
    pub fn calculate_recommended_gain(
        &self,
        voice_prob: i64,
        noise_type: &NoiseType,
        _freq_profile: &FrequencyProfile,
    ) -> (r: i64)
        ensures
            r == spec_recommended_gain(voice_prob as int, *noise_type),
            0 <= r <= SCALE,
    {
        match noise_type {
            NoiseType::Silence => 100_000,
            NoiseType::Speech => 900_000,
            NoiseType::Keyboard => 200_000,
            NoiseType::HVAC => 150_000,
            NoiseType::Music => 600_000,
            NoiseType::Unknown => {
                if voice_prob > 500_000 {
                    800_000
                } else {
                    200_000
                }
            },
        }
    }

    /// Analyze one frame: detect voice activity, derive the frequency
    /// profile (from the supplied magnitude spectrum when one is available,
    /// else the energy fallback), classify the noise, and record the context.
    pub fn analyze_audio_context(
        &mut self,
        samples: &Vec<i64>,
        magnitudes: Option<&Vec<i64>>,
    ) -> (r: AudioContext)
        requires
            old(self).wf(),
            1 <= samples@.len() <= 4096,
            forall|i: int|
                0 <= i < samples@.len() ==> -MAX_AMP <= #[trigger] samples@[i] <= MAX_AMP,
            match magnitudes {
                Some(m) => m@.len() == old(self).spectral().frame_size() / 2 && forall|i: int|
                    0 <= i < m@.len() ==> 0 <= #[trigger] m@[i] <= 1_000_000_000,
                None => true,
            },
        ensures
            final(self).wf(),
            final(self).spectral() == old(self).spectral(),
            final(self).vad().confidence_threshold() == old(self).vad().confidence_threshold(),
            final(self).vad().energy_threshold() == old(self).vad().energy_threshold(),
            // Fallback path: the energy detector votes, exactly.
            old(self).webrtc() is None ==> {
                &&& final(self).webrtc() is None
                &&& final(self).vad().history() =~= spec_history_after(
                    old(self).vad().history(),
                    VoiceActivityDetector::spec_raw_prob(
                        spec_rms(samples@),
                        old(self).vad().energy_threshold(),
                    ),
                )
                &&& r.voice_probability == spec_sum(final(self).vad().history())
                    / (final(self).vad().history().len() as int)
            },
            // Primary path: the advanced detector votes; only the vote's
            // shape is determined, since its decision is stateful.
            old(self).webrtc() is Some ==> {
                &&& final(self).webrtc() is Some
                &&& final(self).webrtc()->Some_0.confidence_threshold()
                    == old(self).webrtc()->Some_0.confidence_threshold()
                &&& final(self).vad() == old(self).vad()
                &&& exists|vote: i64|
                    (vote == 900_000i64 || vote == 100_000i64)
                        && final(self).webrtc()->Some_0.history()
                        =~= #[trigger] spec_history_after(
                        old(self).webrtc()->Some_0.history(),
                        vote,
                    ) && r.voice_probability == spec_sum(final(self).webrtc()->Some_0.history())
                        / (final(self).webrtc()->Some_0.history().len() as int)
            },
            0 <= r.voice_probability <= SCALE,
            r.frequency_profile == match magnitudes {
                Some(m) => spec_profile(
                    m@,
                    old(self).spectral().sample_rate(),
                    old(self).spectral().frame_size(),
                ),
                None => if samples@.len() == old(self).spectral().frame_size() {
                    FrequencyProfile {
                        total_energy: ((crate::fixed::spec_sum_squares(samples@) / (
                        samples@.len() as int)) / (SCALE as int)) as i64,
                        low_freq_ratio: 400_000i64,
                        mid_freq_ratio: 400_000i64,
                        high_freq_ratio: 200_000i64,
                        spectral_centroid: 1000i64,
                        spectral_rolloff: 4000i64,
                    }
                } else {
                    FrequencyProfile::spec_default()
                },
            },
            r.noise_type == spec_classify(r.voice_probability as int, r.frequency_profile),
            r.recommended_gain == spec_recommended_gain(
                r.voice_probability as int,
                r.noise_type,
            ),
            final(self).history() =~= (if old(self).history().len() == 50 {
                old(self).history().skip(1)
            } else {
                old(self).history()
            }).push(r),
    {
        let mut taken: Option<WebRtcVoiceDetector> = None;
        core::mem::swap(&mut taken, &mut self.webrtc);
        let voice_probability = match taken {
            Some(mut w) => {
                let vp = w.detect(samples);
                self.webrtc = Some(w);
                vp
            },
            None => self.vad.detect(samples),
        };
        let frequency_profile = match magnitudes {
            Some(m) => self.spectral_analyzer.analyze_magnitudes(m),
            None => self.spectral_analyzer.analyze(samples),
        };
        let noise_type = self.classify_noise_type(voice_probability, &frequency_profile);
        let recommended_gain = self.calculate_recommended_gain(
            voice_probability,
            &noise_type,
            &frequency_profile,
        );
        let context = AudioContext {
            voice_probability,
            noise_type,
            frequency_profile,
            recommended_gain,
        };
        if self.context_history.len() == 50 {
            self.context_history.remove(0);
        }
        self.context_history.push(context);
        context
    }

    /// Update detection sensitivity on whichever detectors are present.
    pub fn set_sensitivity(&mut self, sensitivity: i64)
        requires
            old(self).wf(),
            0 <= sensitivity <= SCALE,
        ensures
            final(self).wf(),
            final(self).vad().confidence_threshold() == sensitivity,
            final(self).vad().energy_threshold() == sensitivity / 10,
            final(self).vad().history() == old(self).vad().history(),
            (final(self).webrtc() is Some) == (old(self).webrtc() is Some),
            old(self).webrtc() is Some ==> {
                &&& final(self).webrtc()->Some_0.confidence_threshold() == sensitivity
                &&& final(self).webrtc()->Some_0.history()
                    == old(self).webrtc()->Some_0.history()
            },
            final(self).spectral() == old(self).spectral(),
            final(self).history() == old(self).history(),
    {
        self.vad.set_sensitivity(sensitivity);
        let mut taken: Option<WebRtcVoiceDetector> = None;
        core::mem::swap(&mut taken, &mut self.webrtc);
        match taken {
            Some(mut w) => {
                w.set_sensitivity(sensitivity);
                self.webrtc = Some(w);
            },
            None => {},
        }
    }

    /// The recent analysis history, oldest first.
    pub fn get_context_history(&self) -> (r: &Vec<AudioContext>)
        ensures
            r@ == self.history(),
    {
        &self.context_history
    }
}

} // verus!
