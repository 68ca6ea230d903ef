//! Sample-rate adaptation: linear-interpolation resampling between device
//! rates and the model's fixed 48 kHz / 480-sample operating frame.

use vstd::prelude::*;
use crate::MAX_AMP;
use crate::textfmt::{decimal_string, spec_decimal};

verus! {

/// Truncating division (toward zero), the meaning of `/` on machine integers.
pub open spec fn spec_div_trunc(a: int, b: int) -> int {
    if a >= 0 {
        a / b
    } else {
        -((-a) / b)
    }
}

/// Truncating division of a possibly negative numerator by a positive
/// divisor, bounded so nothing overflows.
fn div_trunc(a: i64, b: i64) -> (r: i64)
    requires
        b > 0,
        a != i64::MIN,
    ensures
        r == spec_div_trunc(a as int, b as int),
{
    if a >= 0 {
        a / b
    } else {
        -((-a) / b)
    }
}

/// The linearly interpolated sample between `s1` and `s2`, a fraction
/// `rem / den` of the way from the first to the second.
pub open spec fn spec_lerp(s1: int, s2: int, rem: int, den: int) -> int {
    s1 + spec_div_trunc((s2 - s1) * rem, den)
}

/// The interpolated sample of `buf` at fractional position `num / den`.
pub open spec fn spec_sample_at(buf: Seq<i64>, num: int, den: int) -> int {
    spec_lerp(buf[num / den] as int, buf[num / den + 1] as int, num % den, den)
}

fn lerp(s1: i64, s2: i64, rem: u64, den: u64) -> (r: i64)
    requires
        0 < den <= u32::MAX,
        rem < den,
        -MAX_AMP <= s1 <= MAX_AMP,
        -MAX_AMP <= s2 <= MAX_AMP,
    ensures
        r == spec_lerp(s1 as int, s2 as int, rem as int, den as int),
        -MAX_AMP <= r <= MAX_AMP,
{
    let diff: i64 = s2 - s1;
    proof {
        assert(-300_000_000_000_000_000 <= (diff as int) * (rem as int)
            <= 300_000_000_000_000_000) by (nonlinear_arith)
            requires
                -2 * MAX_AMP as int <= diff as int <= 2 * MAX_AMP as int,
                0 <= rem < den,
                den <= u32::MAX,
        ;
    }
    let scaled: i64 = div_trunc(diff * (rem as i64), den as i64);
    proof {
        // |diff * rem / den| <= |diff| because rem < den.
        assert(spec_div_trunc((diff as int) * (rem as int), den as int) <= 2 * MAX_AMP as int
            && -(2 * MAX_AMP as int) <= spec_div_trunc((diff as int) * (rem as int), den as int))
            by (nonlinear_arith)
            requires
                -2 * MAX_AMP as int <= diff as int <= 2 * MAX_AMP as int,
                0 <= rem < den,
        ;
        // The result lies between s1 and s2.
        let p = (diff as int) * (rem as int);
        let q = spec_div_trunc(p, den as int);
        if diff >= 0 {
            assert(0 <= p <= (diff as int) * (den as int)) by (nonlinear_arith)
                requires
                    diff >= 0,
                    0 <= rem < den,
                    p == (diff as int) * (rem as int),
            ;
            assert(0 <= q <= diff as int) by (nonlinear_arith)
                requires
                    q == p / (den as int),
                    0 <= p <= (diff as int) * (den as int),
                    den > 0,
                    diff >= 0,
            ;
        } else {
            assert(0 <= -p <= (-(diff as int)) * (den as int)) by (nonlinear_arith)
                requires
                    diff < 0,
                    0 <= rem < den,
                    p == (diff as int) * (rem as int),
            ;
            assert(0 <= (-p) / (den as int) <= -(diff as int)) by (nonlinear_arith)
                requires
                    0 <= -p <= (-(diff as int)) * (den as int),
                    den > 0,
                    diff < 0,
            ;
        }
    }
    s1 + scaled
}

/// Stateful linear-interpolation resampler.
///
/// The fractional read position is kept as an exact rational with the
/// output rate as its denominator, so no sample is lost or duplicated at
/// chunk boundaries.
pub struct SimpleResampler {
    input_rate: u32,
    output_rate: u32,
    /// Leftover input samples from earlier chunks, oldest first.
    buffer: Vec<i64>,
    /// Read position in input samples, scaled by `output_rate`:
    /// the position is `pos_num / output_rate`.
    pos_num: u64,
}

impl SimpleResampler {
    pub closed spec fn input_rate(&self) -> int {
        self.input_rate as int
    }

    pub closed spec fn output_rate(&self) -> int {
        self.output_rate as int
    }

    /// Leftover input samples waiting for the next chunk.
    pub closed spec fn leftover(&self) -> Seq<i64> {
        self.buffer@
    }

    /// Numerator of the fractional read position (denominator: output rate).
    pub closed spec fn position_num(&self) -> int {
        self.pos_num as int
    }

    /// Internal consistency: valid rates, a bounded sliver of leftover
    /// samples, and a bounded read position.
    pub closed spec fn wf(&self) -> bool {
        &&& 1 <= self.input_rate <= 1_000_000
        &&& 1 <= self.output_rate <= 1_000_000
        &&& self.buffer@.len() <= 2
        &&& self.pos_num <= 2_000_000
        &&& forall|i: int|
            0 <= i < self.buffer@.len() ==> -MAX_AMP <= #[trigger] self.buffer@[i] <= MAX_AMP
    }

    pub fn new(input_rate: u32, output_rate: u32) -> (r: SimpleResampler)
        requires
            1 <= input_rate <= 1_000_000,
            1 <= output_rate <= 1_000_000,
        ensures
            r.wf(),
            r.input_rate() == input_rate,
            r.output_rate() == output_rate,
            r.leftover() =~= Seq::<i64>::empty(),
            r.position_num() == 0,
    {
        SimpleResampler { input_rate, output_rate, buffer: Vec::new(), pos_num: 0 }
    }

    /// Whether the configured rates differ at all.
    pub fn needs_resampling(&self) -> (r: bool)
        ensures
            r == (self.input_rate() != self.output_rate()),
    {
        self.input_rate != self.output_rate
    }

    /// Feed one chunk and collect every output sample that the data so far
    /// determines, by linear interpolation at the exact rational positions
    /// `k * input_rate / output_rate`.
    #[verifier::loop_isolation(false)]
    pub fn process(&mut self, input: &Vec<i64>, output: &mut Vec<i64>)
        requires
            old(self).wf(),
            input@.len() <= 1_000_000,
            forall|i: int|
                0 <= i < input@.len() ==> -MAX_AMP <= #[trigger] input@[i] <= MAX_AMP,
        ensures
            final(self).wf(),
            final(self).input_rate() == old(self).input_rate(),
            final(self).output_rate() == old(self).output_rate(),
            old(self).input_rate() == old(self).output_rate() ==> {
                &&& final(output)@ =~= input@
                &&& final(self).leftover() == old(self).leftover()
                &&& final(self).position_num() == old(self).position_num()
            },
            old(self).input_rate() != old(self).output_rate() ==> {
                let all = old(self).leftover() + input@;
                let p0 = old(self).position_num();
                let rin = old(self).input_rate();
                let rout = old(self).output_rate();
                // Every emitted sample is the interpolation at its position.
                &&& forall|k: int|
                    0 <= k < final(output)@.len() ==> #[trigger] final(output)@[k]
                        == spec_sample_at(all, p0 + k * rin, rout)
                // Each consumed position was inside the available data.
                &&& forall|k: int|
                    0 <= k < final(output)@.len() ==> p0 + #[trigger] (k * rin) < (all.len() - 1)
                        * rout
                // No further sample was determined yet.
                &&& p0 + final(output)@.len() * rin >= (all.len() as int - 1) * rout
                // The leftover keeps the suffix needed for the next chunk.
                &&& final(self).leftover() =~= all.skip(
                    all.len() - final(self).leftover().len(),
                )
                // Continuity: the retained position points into the leftover
                // exactly where the global position would.
                &&& final(self).position_num() == p0 + final(output)@.len() * rin - (all.len()
                    - final(self).leftover().len()) * rout
            },
    {
        if self.input_rate == self.output_rate {
            output.clear();
            let mut i: usize = 0;
            while i < input.len()
                invariant
                    i <= input@.len(),
                    output@ =~= input@.subrange(0, i as int),
                decreases input@.len() - i,
            {
                output.push(input[i]);
                proof {
                    assert(output@ =~= input@.subrange(0, i + 1 as int));
                }
                i = i + 1;
            }
            proof {
                assert(input@.subrange(0, input@.len() as int) =~= input@);
            }
            return;
        }
        let ghost all = self.buffer@ + input@;
        let ghost p0 = self.pos_num as int;
        let ghost rin = self.input_rate as int;
        let ghost rout = self.output_rate as int;

        let mut i: usize = 0;
        while i < input.len()
            invariant
                i <= input@.len(),
                self.buffer@ =~= old(self).buffer@ + input@.subrange(0, i as int),
                self.pos_num == old(self).pos_num,
                self.input_rate == old(self).input_rate,
                self.output_rate == old(self).output_rate,
            decreases input@.len() - i,
        {
            self.buffer.push(input[i]);
            proof {
                assert(self.buffer@ =~= old(self).buffer@ + input@.subrange(0, i + 1 as int));
            }
            i = i + 1;
        }
        proof {
            assert(input@.subrange(0, input@.len() as int) =~= input@);
            assert(self.buffer@ =~= all);
        }

        output.clear();
        let out_rate_64: u64 = self.output_rate as u64;
        let in_rate_64: u64 = self.input_rate as u64;
        let len = self.buffer.len();
        proof {
            assert((len as int - 1) * rout <= 1_100_000_000_000 && (len as int) * rout
                <= 1_100_000_000_000) by (nonlinear_arith)
                requires
                    len <= 1_000_002,
                    1 <= rout <= 1_000_000,
            ;
        }
        // Highest admissible position numerator: (len - 1) * output_rate.
        let limit: u64 = if len == 0 {
            0
        } else {
            (len as u64 - 1) * out_rate_64
        };
        let mut pos: u64 = self.pos_num;
        while len >= 1 && pos < limit
            invariant
                self.buffer@ =~= all,
                self.input_rate == old(self).input_rate,
                self.output_rate == old(self).output_rate,
                len == all.len(),
                out_rate_64 == rout,
                in_rate_64 == rin,
                limit == if len == 0 { 0int } else { (len - 1) * rout },
                limit <= 1_100_000_000_000,
                pos == p0 + output@.len() * rin,
                pos <= limit + rin || pos == p0,
                forall|k: int|
                    0 <= k < output@.len() ==> #[trigger] output@[k] == spec_sample_at(
                        all,
                        p0 + k * rin,
                        rout,
                    ),
                forall|k: int|
                    0 <= k < output@.len() ==> p0 + #[trigger] (k * rin) < (all.len() - 1) * rout,
            decreases limit + rin - pos,
        {
            proof {
                assert((pos as int) / rout < (len - 1) as int) by (nonlinear_arith)
                    requires
                        (pos as int) < ((len - 1) as int) * rout,
                        rout >= 1,
                        len >= 1,
                ;
                vstd::arithmetic::div_mod::lemma_mod_bound(pos as int, rout);
            }
            let index = (pos / out_rate_64) as usize;
            let rem = pos % out_rate_64;
            let s1 = self.buffer[index];
            let s2 = self.buffer[index + 1];
            let ghost out_len_before = output@.len() as int;
            output.push(lerp(s1, s2, rem, out_rate_64));
            proof {
                assert((out_len_before + 1) * rin == out_len_before * rin + rin)
                    by (nonlinear_arith);
                assert(output@.last() == spec_sample_at(all, p0 + out_len_before * rin, rout));
                assert(forall|k: int|
                    0 <= k < output@.len() ==> #[trigger] output@[k] == spec_sample_at(
                        all,
                        p0 + k * rin,
                        rout,
                    ));
            }
            pos = pos + in_rate_64;
        }
        // Drop the fully consumed prefix, keeping the sample pair around the
        // read position for the next chunk.
        proof {
            vstd::arithmetic::div_mod::lemma_fundamental_div_mod(pos as int, rout);
            vstd::arithmetic::div_mod::lemma_mod_bound(pos as int, rout);
        }
        let q: u64 = pos / out_rate_64;
        let consumed: usize;
        let new_pos: u64;
        if q <= len as u64 {
            consumed = q as usize;
            new_pos = pos % out_rate_64;
            proof {
                assert((consumed as int) * rout == rout * (consumed as int)) by (nonlinear_arith);
            }
        } else {
            consumed = len;
            proof {
                // pos >= q * rout >= (len + 1) * rout, so len * rout fits under pos.
                assert((q as int) * rout >= (len as int + 1) * rout && (len as int) * rout
                    <= (q as int) * rout - rout) by (nonlinear_arith)
                    requires
                        q as int > len as int,
                        rout >= 1,
                ;
                assert(rout * (q as int) == (q as int) * rout) by (nonlinear_arith);
            }
            new_pos = pos - (len as u64) * out_rate_64;
        }
        let ghost pos_end = pos as int;
        let mut rest: Vec<i64> = Vec::new();
        let mut j: usize = consumed;
        while j < len
            invariant
                consumed <= j <= len,
                len == self.buffer@.len(),
                self.buffer@ =~= all,
                rest@ =~= all.subrange(consumed as int, j as int),
                self.input_rate == old(self).input_rate,
                self.output_rate == old(self).output_rate,
                self.pos_num == old(self).pos_num,
            decreases len - j,
        {
            rest.push(self.buffer[j]);
            proof {
                assert(rest@ =~= all.subrange(consumed as int, j + 1 as int));
            }
            j = j + 1;
        }
        proof {
            assert(rest@ =~= all.skip(consumed as int));
        }
        self.buffer = rest;
        self.pos_num = new_pos;
        proof {
            // At most one sample stays behind: the loop ran until the read
            // position passed the second-to-last sample.
            if len >= 1 {
                assert(pos_end >= (len as int - 1) * rout);
                vstd::arithmetic::div_mod::lemma_div_by_multiple(len as int - 1, rout);
                vstd::arithmetic::div_mod::lemma_div_is_ordered(
                    (len as int - 1) * rout,
                    pos_end,
                    rout,
                );
                assert(q as int >= len as int - 1);
            }
            assert(self.buffer@.len() <= 2);
            // Leftover samples keep their amplitude bound.
            assert forall|i: int|
                0 <= i < self.buffer@.len() implies -MAX_AMP <= #[trigger] self.buffer@[i]
                <= MAX_AMP by {
                assert(self.buffer@[i] == all[consumed + i]);
            }
            // The retained position stays within the wf bound.
            assert(rout * (q as int) >= 0 && (len as int) * rout >= 0) by (nonlinear_arith)
                requires
                    q >= 0,
                    rout >= 1,
                    len >= 0,
            ;
            if pos_end <= limit + rin {
                if q <= len {
                    assert(new_pos < rout);
                } else {
                    assert(new_pos as int == pos_end - (len as int) * rout);
                    assert(pos_end - (len as int) * rout <= rin) by (nonlinear_arith)
                        requires
                            pos_end <= (len as int - 1) * rout + rin || (len == 0 && pos_end
                                <= rin),
                            rout >= 1,
                            len >= 0,
                            pos_end - (len as int) * rout >= 0,
                    ;
                }
            } else {
                assert(pos_end == p0);
                assert(new_pos <= pos_end);
            }
            assert(self.pos_num <= 2_000_000);
            // Continuity equation, by the division identity pos = q*rout + pos%rout.
            assert(consumed as int == all.len() - self.buffer@.len());
            assert(pos_end == p0 + output@.len() * rin);
            if q <= len {
                assert(self.pos_num as int == pos_end - rout * (q as int));
                assert(self.pos_num as int == pos_end - (consumed as int) * rout);
            } else {
                assert(self.pos_num as int == pos_end - (consumed as int) * rout);
            }
            assert(forall|k: int|
                0 <= k < output@.len() ==> #[trigger] output@[k] == spec_sample_at(
                    all,
                    p0 + k * rin,
                    rout,
                ));
            assert(forall|k: int|
                0 <= k < output@.len() ==> p0 + #[trigger] (k * rin) < (all.len() - 1) * rout);
            if len >= 1 {
                assert(pos_end >= limit);
            } else {
                assert(all.len() == 0);
                assert((all.len() as int - 1) * rout == -rout) by (nonlinear_arith)
                    requires
                        all.len() == 0,
                ;
                assert(output@.len() * rin >= 0) by (nonlinear_arith)
                    requires
                        rin >= 1,
                ;
            }
            assert(p0 + output@.len() * rin >= (all.len() as int - 1) * rout);
            assert(self.buffer@ =~= all.skip(all.len() - self.buffer@.len()));
            assert(self.pos_num as int == p0 + output@.len() * rin - (all.len()
                - self.buffer@.len()) * rout);
        }
    }
}

/// Why a chunk could not be adapted to the model's frame.
#[derive(Debug, Clone, Copy, PartialEq, Eq, Structural)]
pub enum ResampleError {
    /// A 44.1 kHz chunk must hold exactly 441 samples (10 ms).
    UnexpectedChunkLength { expected: usize, got: usize },
    /// Only 48 kHz (native) and 44.1 kHz capture rates are supported.
    UnsupportedSampleRate { sample_rate: u32 },
}

impl ResampleError {
    /// A human-readable description of the error.
    pub fn message(&self) -> (r: String)
        ensures
            match self {
                ResampleError::UnexpectedChunkLength { expected, got } => r@ == "expected chunk of "@
                    + spec_decimal(*expected as nat) + " samples, got "@ + spec_decimal(
                    *got as nat,
                ),
                ResampleError::UnsupportedSampleRate { sample_rate } => r@
                    == "unsupported sample rate: "@ + spec_decimal(*sample_rate as nat)
                    + "Hz (supported: 48000Hz, 44100Hz)"@,
            },
    {
        match self {
            ResampleError::UnexpectedChunkLength { expected, got } => {
                let mut s = String::from_str("expected chunk of ");
                let e = decimal_string(*expected as u64);
                s.append(e.as_str());
                s.append(" samples, got ");
                let g = decimal_string(*got as u64);
                s.append(g.as_str());
                s
            },
            ResampleError::UnsupportedSampleRate { sample_rate } => {
                let mut s = String::from_str("unsupported sample rate: ");
                let v = decimal_string(*sample_rate as u64);
                s.append(v.as_str());
                s.append("Hz (supported: 48000Hz, 44100Hz)");
                s
            },
        }
    }
}

/// The number of samples in one 44.1 kHz chunk covering 10 ms.
pub const CHUNK_44100: usize = 441;

/// The model's fixed frame length: 10 ms at 48 kHz.
pub const MODEL_FRAME_SIZE: usize = 480;

/// The interpolated sample the 44.1 kHz adaptation produces at output
/// position `i`: linear interpolation at source position `i * 441 / 480`,
/// falling back to the raw sample when no right neighbour exists.
pub open spec fn spec_adapted_sample(input: Seq<i64>, i: int) -> int {
    let src = (i * 441) / 480;
    let rem = (i * 441) % 480;
    if src + 1 < input.len() {
        spec_lerp(input[src] as int, input[src + 1] as int, rem, 480)
    } else {
        input[src] as int
    }
}

/// Adapt one captured chunk to the model's fixed 480-sample frame.
///
/// At 48 kHz the chunk passes through (padded or truncated to length if
/// needed). A 441-sample chunk at 44.1 kHz is resampled to 480 samples by
/// linear interpolation; its first output sample equals its first input
/// sample exactly. Every other rate is a configuration error.
#[verifier::loop_isolation(false)]
pub fn adapt_frame_for_rnnoise(input: &Vec<i64>, sample_rate: u32, output: &mut Vec<i64>) -> (r:
    Result<(), ResampleError>)
    requires
        forall|i: int| 0 <= i < input@.len() ==> -MAX_AMP <= #[trigger] input@[i] <= MAX_AMP,
    ensures
        sample_rate == 48000 ==> {
            &&& r is Ok
            &&& final(output)@.len() == MODEL_FRAME_SIZE
            &&& forall|i: int|
                0 <= i < MODEL_FRAME_SIZE ==> #[trigger] final(output)@[i] == (if i
                    < input@.len() {
                    input@[i]
                } else {
                    0i64
                })
        },
        sample_rate == 44100 && input@.len() == CHUNK_44100 ==> {
            &&& r is Ok
            &&& final(output)@.len() == MODEL_FRAME_SIZE
            &&& forall|i: int|
                0 <= i < MODEL_FRAME_SIZE ==> #[trigger] final(output)@[i] == spec_adapted_sample(
                    input@,
                    i,
                )
            &&& final(output)@[0] == input@[0]
        },
        sample_rate == 44100 && input@.len() != CHUNK_44100 ==> {
            &&& r == Result::<(), ResampleError>::Err(ResampleError::UnexpectedChunkLength {
                expected: CHUNK_44100,
                got: input@.len() as usize,
            })
            &&& final(output)@ == old(output)@
        },
        sample_rate != 48000 && sample_rate != 44100 ==> {
            &&& r == Result::<(), ResampleError>::Err(ResampleError::UnsupportedSampleRate {
                sample_rate,
            })
            &&& final(output)@ == old(output)@
        },
{
    if sample_rate == 48000 {
        output.clear();
        let take = if input.len() < MODEL_FRAME_SIZE {
            input.len()
        } else {
            MODEL_FRAME_SIZE
        };
        let mut i: usize = 0;
        while i < take
            invariant
                i <= take,
                output@.len() == i,
                forall|k: int| 0 <= k < i ==> #[trigger] output@[k] == input@[k],
            decreases take - i,
        {
            output.push(input[i]);
            i = i + 1;
        }
        while i < MODEL_FRAME_SIZE
            invariant
                take <= i <= MODEL_FRAME_SIZE,
                output@.len() == i,
                forall|k: int| 0 <= k < take ==> #[trigger] output@[k] == input@[k],
                forall|k: int| take <= k < i ==> #[trigger] output@[k] == 0i64,
            decreases MODEL_FRAME_SIZE - i,
        {
            output.push(0);
            i = i + 1;
        }
        return Ok(());
    }
    if sample_rate == 44100 {
        if input.len() != CHUNK_44100 {
            return Err(ResampleError::UnexpectedChunkLength {
                expected: CHUNK_44100,
                got: input.len(),
            });
        }
        output.clear();
        let mut i: usize = 0;
        while i < MODEL_FRAME_SIZE
            invariant
                i <= MODEL_FRAME_SIZE,
                output@.len() == i,
                input@.len() == CHUNK_44100,
                forall|k: int|
                    0 <= k < i ==> #[trigger] output@[k] == spec_adapted_sample(input@, k),
            decreases MODEL_FRAME_SIZE - i,
        {
            let num = i * 441;
            let src = num / 480;
            let rem = num % 480;
            proof {
                assert(num / 480 < 441) by (nonlinear_arith)
                    requires
                        num == i * 441,
                        0 <= i < 480,
                ;
            }
            let s = if src + 1 < input.len() {
                lerp(input[src], input[src + 1], rem as u64, 480)
            } else {
                input[src]
            };
            output.push(s);
            i = i + 1;
        }
        proof {
            assert(output@[0] == input@[0]);
        }
        return Ok(());
    }
    Err(ResampleError::UnsupportedSampleRate { sample_rate })
}

/// The frame length that covers 10 ms at the given sample rate: the unit of
/// work the denoising model expects.
pub fn calculate_frame_size_for_sample_rate(sample_rate: u32) -> (r: usize)
    ensures
        r == sample_rate as int / 100,
{
    (sample_rate / 100) as usize
}

/// The model operates best at 48 kHz with 480-sample (10 ms) frames.
pub fn is_optimal_configuration(sample_rate: u32, frame_size: usize) -> (r: bool)
    ensures
        r == (sample_rate == 48000 && frame_size == 480),
{
    sample_rate == 48000 && frame_size == 480
}

/// A human-readable assessment of the capture configuration.
pub fn get_configuration_advice(sample_rate: u32) -> (r: String)
    ensures
        sample_rate == 48000 ==> r@
            == "Optimal configuration (48kHz) for AI noise cancellation"@,
        sample_rate == 44100 ==> r@
            == "44.1kHz detected - consider setting to 48kHz for optimal AI performance"@,
        sample_rate != 48000 && sample_rate != 44100 ==> r@ == spec_decimal(sample_rate as nat)
            + "Hz detected - 48kHz recommended for best noise cancellation"@,
{
    if sample_rate == 48000 {
        String::from_str("Optimal configuration (48kHz) for AI noise cancellation")
    } else if sample_rate == 44100 {
        String::from_str("44.1kHz detected - consider setting to 48kHz for optimal AI performance")
    } else {
        let mut s = decimal_string(sample_rate as u64);
        s.append("Hz detected - 48kHz recommended for best noise cancellation");
        s
    }
}

} // verus!
