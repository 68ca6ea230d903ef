//! Denoising model selection and the model-output contract: which concrete
//! model runs, how its per-frame output is validated, and how invalid output
//! recovers to a safe passthrough.

use vstd::prelude::*;
use crate::{MAX_AMP, SCALE};

verus! {

/// Available noise cancellation models.
#[derive(Debug, Clone, Copy, PartialEq, Eq, Hash, Structural)]
pub enum NoiseModel {
    /// Automatic selection: resolves once to a concrete model.
    Auto,
    /// The recurrent-network denoiser, the concrete model in use.
    RNNoise,
}

impl NoiseModel {
    /// Human-readable model name.
    pub fn name(&self) -> (r: &'static str)
        ensures
            r@ == match self {
                NoiseModel::Auto => "Auto"@,
                NoiseModel::RNNoise => "RNNoise"@,
            },
    {
        match self {
            NoiseModel::Auto => "Auto",
            NoiseModel::RNNoise => "RNNoise",
        }
    }

    /// Detailed model description for tooltips and help text.
    pub fn description(&self) -> (r: &'static str)
        ensures
            r@ == match self {
                NoiseModel::Auto =>
                    "Automatically selects the best settings based on audio environment and performance"@,
                NoiseModel::RNNoise =>
                    "Original RNNoise model with proven performance and low CPU usage"@,
            },
    {
        match self {
            NoiseModel::Auto =>
                "Automatically selects the best settings based on audio environment and performance",
            NoiseModel::RNNoise =>
                "Original RNNoise model with proven performance and low CPU usage",
        }
    }

    /// Relative CPU usage indicator (1 = lowest, 5 = highest).
    pub fn cpu_usage_level(&self) -> (r: u8)
        ensures
            r == 2u8,
    {
        match self {
            NoiseModel::Auto => 2,
            NoiseModel::RNNoise => 2,
        }
    }

    /// Whether the model can be selected.
    pub fn is_available(&self) -> (r: bool)
        ensures
            r == true,
    {
        match self {
            NoiseModel::Auto => true,
            NoiseModel::RNNoise => true,
        }
    }

    /// The frame length the model operates on.
    pub fn frame_size(&self) -> (r: usize)
        ensures
            r == 480usize,
    {
        match self {
            NoiseModel::Auto => 480,
            NoiseModel::RNNoise => 480,
        }
    }

    /// Every selectable model.
    pub fn available_models() -> (r: Vec<NoiseModel>)
        ensures
            r@ =~= seq![NoiseModel::Auto, NoiseModel::RNNoise],
    {
        let mut v: Vec<NoiseModel> = Vec::new();
        v.push(NoiseModel::Auto);
        v.push(NoiseModel::RNNoise);
        v
    }

    /// The model recommended for a use case.
    pub fn recommended_for_use_case(use_case: UseCase) -> (r: NoiseModel)
        ensures
            r == match use_case {
                UseCase::GeneralPurpose => NoiseModel::Auto,
                UseCase::ProfessionalMeetings => NoiseModel::RNNoise,
                UseCase::OfficeEnvironment => NoiseModel::RNNoise,
                UseCase::PersonalizedLongTerm => NoiseModel::Auto,
            },
    {
        match use_case {
            UseCase::GeneralPurpose => NoiseModel::Auto,
            UseCase::ProfessionalMeetings => NoiseModel::RNNoise,
            UseCase::OfficeEnvironment => NoiseModel::RNNoise,
            UseCase::PersonalizedLongTerm => NoiseModel::Auto,
        }
    }

    /// The concrete model a selection resolves to: automatic selection
    /// resolves once, to the recurrent-network model.
    pub fn resolve_active(&self) -> (r: NoiseModel)
        ensures
            r == NoiseModel::RNNoise,
    {
        match self {
            NoiseModel::Auto => NoiseModel::RNNoise,
            NoiseModel::RNNoise => NoiseModel::RNNoise,
        }
    }
}

impl Default for NoiseModel {
    /// Automatic selection is the default.
    fn default() -> (r: NoiseModel)
        ensures
            r == NoiseModel::Auto,
    {
        NoiseModel::Auto
    }
}

/// Use case categories for model recommendation.
#[derive(Debug, Clone, Copy, PartialEq, Eq, Structural)]
pub enum UseCase {
    /// General purpose noise cancellation for various environments.
    GeneralPurpose,
    /// Professional meetings, calls, and presentations.
    ProfessionalMeetings,
    /// Office environments with keyboard, HVAC, and office chatter.
    OfficeEnvironment,
    /// Long-term personal use with a consistent setup.
    PersonalizedLongTerm,
}

/// Performance statistics for the model in use: exact running aggregates of
/// per-frame processing time and voice-activity score.
#[derive(Debug, Clone, Copy, PartialEq, Eq, Structural)]
pub struct ModelStatistics {
    total_frames: u64,
    total_processing_us: u64,
    total_vad: u64,
    peak_processing_us: u64,
}

impl ModelStatistics {
    pub closed spec fn frames(&self) -> int {
        self.total_frames as int
    }

    pub closed spec fn processing_us_sum(&self) -> int {
        self.total_processing_us as int
    }

    pub closed spec fn vad_sum(&self) -> int {
        self.total_vad as int
    }

    pub closed spec fn peak_us(&self) -> int {
        self.peak_processing_us as int
    }

    pub closed spec fn wf(&self) -> bool {
        &&& self.total_frames <= 0x10_0000_0000
        &&& self.total_processing_us <= self.total_frames * 1_000_000
        &&& self.total_vad <= self.total_frames * (SCALE as u64)
        &&& self.peak_processing_us <= 1_000_000
    }

    pub fn new() -> (r: ModelStatistics)
        ensures
            r.wf(),
            r.frames() == 0,
            r.processing_us_sum() == 0,
            r.vad_sum() == 0,
            r.peak_us() == 0,
    {
        ModelStatistics {
            total_frames: 0,
            total_processing_us: 0,
            total_vad: 0,
            peak_processing_us: 0,
        }
    }

    /// Record one processed frame: its processing time (microseconds,
    /// clipped to one second) and its voice-activity score.
    pub fn record_processing(&mut self, processing_us: u64, vad_score: i64)
        requires
            old(self).wf(),
            old(self).frames() < 0x10_0000_0000,
            0 <= vad_score <= SCALE,
        ensures
            final(self).wf(),
            final(self).frames() == old(self).frames() + 1,
            final(self).processing_us_sum() == old(self).processing_us_sum() + (if processing_us
                > 1_000_000 {
                1_000_000int
            } else {
                processing_us as int
            }),
            final(self).vad_sum() == old(self).vad_sum() + vad_score,
            final(self).peak_us() == (if processing_us > 1_000_000 {
                1_000_000int
            } else if processing_us as int > old(self).peak_us() {
                processing_us as int
            } else {
                old(self).peak_us()
            }),
    {
        let us = if processing_us > 1_000_000 {
            1_000_000
        } else {
            processing_us
        };
        proof {
            let n = old(self).frames();
            assert((n + 1) * 1_000_000 == n * 1_000_000 + 1_000_000) by (nonlinear_arith);
            assert((n + 1) * (SCALE as int) == n * (SCALE as int) + SCALE) by (nonlinear_arith);
        }
        self.total_frames = self.total_frames + 1;
        self.total_processing_us = self.total_processing_us + us;
        self.total_vad = self.total_vad + (vad_score as u64);
        if us > self.peak_processing_us {
            self.peak_processing_us = us;
        }
    }

    /// Forget everything recorded so far.
    pub fn reset(&mut self)
        ensures
            final(self).wf(),
            final(self).frames() == 0,
            final(self).processing_us_sum() == 0,
            final(self).vad_sum() == 0,
            final(self).peak_us() == 0,
    {
        *self = ModelStatistics::new();
    }

    /// Frames recorded so far.
    pub fn total_frames(&self) -> (r: u64)
        ensures
            r == self.frames(),
    {
        self.total_frames
    }

    /// Exact average processing time per frame, in microseconds.
    pub fn avg_processing_us(&self) -> (r: u64)
        ensures
            self.frames() == 0 ==> r == 0,
            self.frames() > 0 ==> r == self.processing_us_sum() / self.frames(),
    {
        if self.total_frames == 0 {
            0
        } else {
            self.total_processing_us / self.total_frames
        }
    }

    /// Exact average voice-activity score (fixed point).
    pub fn avg_vad_score(&self) -> (r: i64)
        requires
            self.wf(),
        ensures
            self.frames() == 0 ==> r == 0,
            self.frames() > 0 ==> r == self.vad_sum() / self.frames(),
            0 <= r <= SCALE,
    {
        if self.total_frames == 0 {
            0
        } else {
            proof {
                assert(0 <= self.vad_sum() / self.frames() <= SCALE as int) by (nonlinear_arith)
                    requires
                        0 <= self.vad_sum() <= self.frames() * (SCALE as int),
                        self.frames() >= 1,
                ;
            }
            (self.total_vad / self.total_frames) as i64
        }
    }

    /// Worst recorded processing time, in microseconds.
    pub fn peak_processing_us(&self) -> (r: u64)
        ensures
            r == self.peak_us(),
    {
        self.peak_processing_us
    }
}

/// One raw model output sample: the converted amplitude, or nothing where
/// the model emitted a value with no finite amplitude.
pub type RawModelSample = Option<i64>;

/// A raw model frame is valid when it has the expected length and every
/// sample carries a finite, in-range amplitude.
pub open spec fn spec_output_valid(raw: Seq<RawModelSample>, expected_len: int) -> bool {
    &&& raw.len() == expected_len
    &&& forall|i: int|
        0 <= i < raw.len() ==> match #[trigger] raw[i] {
            Some(v) => -MAX_AMP <= v <= MAX_AMP,
            None => false,
        }
}

/// The frame the pipeline continues with: the model's own output when it is
/// valid, otherwise the untouched input (passthrough).
pub open spec fn spec_resolved_frame(input: Seq<i64>, raw: Seq<RawModelSample>) -> Seq<i64> {
    if spec_output_valid(raw, input.len() as int) {
        Seq::new(raw.len(), |i: int| raw[i]->Some_0)
    } else {
        input
    }
}

/// The voice-activity score the pipeline continues with: the model's own
/// score when the output was valid, otherwise zero (confident noise).
pub open spec fn spec_resolved_vad(raw: Seq<RawModelSample>, input_len: int, vad: i64) -> i64 {
    if spec_output_valid(raw, input_len) {
        vad
    } else {
        0i64
    }
}

/// Bookkeeping around the denoising model: the user's selection, the
/// concrete model resolved from it, frame counting and statistics, and the
/// validity check that turns a bad model frame into a safe passthrough.
pub struct EnhancedAudioProcessor {
    selected_model: NoiseModel,
    active_model: NoiseModel,
    frame_count: u64,
    model_stats: ModelStatistics,
}

impl EnhancedAudioProcessor {
    pub closed spec fn selected(&self) -> NoiseModel {
        self.selected_model
    }

    pub closed spec fn active(&self) -> NoiseModel {
        self.active_model
    }

    pub closed spec fn frame_count(&self) -> int {
        self.frame_count as int
    }

    pub closed spec fn stats(&self) -> ModelStatistics {
        self.model_stats
    }

    pub closed spec fn wf(&self) -> bool {
        &&& self.active_model == NoiseModel::RNNoise
        &&& self.model_stats.wf()
        &&& self.frame_count <= 0x10_0000_0000
    }

    /// Select a model; automatic selection resolves once, here, to the
    /// concrete model, and the hot path never branches on it again.
    pub fn new(model: NoiseModel) -> (r: EnhancedAudioProcessor)
        ensures
            r.wf(),
            r.selected() == model,
            r.active() == NoiseModel::RNNoise,
            r.frame_count() == 0,
            r.stats().frames() == 0,
    {
        EnhancedAudioProcessor {
            selected_model: model,
            active_model: model.resolve_active(),
            frame_count: 0,
            model_stats: ModelStatistics::new(),
        }
    }

    /// Validate one raw model frame and recover from invalid output.
    ///
    /// If the raw frame has the right length and every sample is a finite,
    /// in-range amplitude, the model's output and score stand; otherwise the
    /// input frame passes through unchanged and the score drops to zero.
    /// Either way the frame is counted and the statistics updated.
    #[verifier::loop_isolation(false)]
    pub fn resolve_frame(
        &mut self,
        input: &Vec<i64>,
        raw: &Vec<RawModelSample>,
        vad: i64,
        processing_us: u64,
    ) -> (r: (Vec<i64>, i64))
        requires
            old(self).wf(),
            old(self).frame_count() < 0x10_0000_0000,
            old(self).stats().frames() < 0x10_0000_0000,
            0 <= vad <= SCALE,
            forall|i: int|
                0 <= i < input@.len() ==> -MAX_AMP <= #[trigger] input@[i] <= MAX_AMP,
        ensures
            final(self).wf(),
            final(self).selected() == old(self).selected(),
            final(self).active() == old(self).active(),
            final(self).frame_count() == old(self).frame_count() + 1,
            final(self).stats().frames() == old(self).stats().frames() + 1,
            r.0@ =~= spec_resolved_frame(input@, raw@),
            r.1 == spec_resolved_vad(raw@, input@.len() as int, vad),
            0 <= r.1 <= SCALE,
            forall|i: int| 0 <= i < r.0@.len() ==> -MAX_AMP <= #[trigger] r.0@[i] <= MAX_AMP,
    {
        let mut valid = raw.len() == input.len();
        let mut out: Vec<i64> = Vec::new();
        let mut i: usize = 0;
        if valid {
            while i < raw.len()
                invariant
                    i <= raw@.len(),
                    raw@.len() == input@.len(),
                    valid ==> out@.len() == i,
                    valid ==> forall|k: int|
                        0 <= k < i ==> match #[trigger] raw@[k] {
                            Some(v) => -MAX_AMP <= v <= MAX_AMP && out@[k] == v,
                            None => false,
                        },
                    !valid ==> exists|k: int|
                        0 <= k < raw@.len() && match #[trigger] raw@[k] {
                            Some(v) => !(-MAX_AMP <= v <= MAX_AMP),
                            None => true,
                        },
                decreases raw@.len() - i,
            {
                match raw[i] {
                    Some(v) => {
                        if -MAX_AMP <= v && v <= MAX_AMP {
                            out.push(v);
                        } else {
                            valid = false;
                        }
                    },
                    None => {
                        valid = false;
                    },
                }
                if !valid {
                    break;
                }
                i = i + 1;
            }
        }
        self.frame_count = self.frame_count + 1;
        self.model_stats.record_processing(processing_us, if valid {
            vad
        } else {
            0
        });
        if valid {
            proof {
                assert(spec_output_valid(raw@, input@.len() as int));
                assert(out@ =~= spec_resolved_frame(input@, raw@));
            }
            (out, vad)
        } else {
            proof {
                assert(!spec_output_valid(raw@, input@.len() as int));
            }
            let mut copy: Vec<i64> = Vec::new();
            let mut j: usize = 0;
            while j < input.len()
                invariant
                    j <= input@.len(),
                    copy@ =~= input@.subrange(0, j as int),
                decreases input@.len() - j,
            {
                copy.push(input[j]);
                proof {
                    assert(copy@ =~= input@.subrange(0, j + 1 as int));
                }
                j = j + 1;
            }
            proof {
                assert(input@.subrange(0, input@.len() as int) =~= input@);
            }
            (copy, 0)
        }
    }

    /// The user's model selection (possibly automatic).
    pub fn current_model(&self) -> (r: NoiseModel)
        ensures
            r == self.selected(),
    {
        self.selected_model
    }

    /// The concrete model actually running.
    pub fn active_model(&self) -> (r: NoiseModel)
        ensures
            r == self.active(),
    {
        self.active_model
    }

    /// Frames handed to the model so far.
    pub fn frames_processed(&self) -> (r: u64)
        ensures
            r == self.frame_count(),
    {
        self.frame_count
    }

    /// The frame length the active model expects.
    pub fn current_frame_size(&self) -> (r: usize)
        ensures
            r == 480usize,
    {
        self.active_model.frame_size()
    }

    /// Switch the selection; a switch to automatic mode restarts frame
    /// counting, and a change of the concrete model resets the statistics.
    pub fn switch_model(&mut self, new_model: NoiseModel)
        requires
            old(self).wf(),
        ensures
            final(self).wf(),
            final(self).selected() == new_model,
            final(self).active() == NoiseModel::RNNoise,
            new_model is Auto ==> final(self).frame_count() == 0,
            !(new_model is Auto) ==> final(self).frame_count() == old(self).frame_count(),
            final(self).stats() == old(self).stats(),
    {
        self.selected_model = new_model;
        if let NoiseModel::Auto = new_model {
            self.frame_count = 0;
        }
        // The concrete model never changes: every selection resolves to the
        // same recurrent-network model, so the statistics carry over.
        self.active_model = new_model.resolve_active();
    }

    /// The model's performance statistics.
    pub fn get_statistics(&self) -> (r: &ModelStatistics)
        ensures
            r == self.stats(),
    {
        &self.model_stats
    }
}

} // verus!
