//! Frame accumulation: variable-length captured chunks become fixed-size
//! model frames, in arrival order and with no sample lost or invented.

use vstd::prelude::*;

verus! {

/// Buffers incoming sample chunks and hands out complete frames.
///
/// Samples are fixed-point amplitudes. The accumulator never emits a short
/// frame: `try_take_frame` returns a frame only when `frame_size` samples
/// are pending.
pub struct FrameAccumulator {
    buffer: Vec<i64>,
    frame_size: usize,
    /// Every sample already emitted, oldest first (for specification only).
    emitted: Ghost<Seq<i64>>,
}

impl FrameAccumulator {
    /// Samples pushed but not yet emitted, oldest first.
    pub closed spec fn pending(&self) -> Seq<i64> {
        self.buffer@
    }

    /// Concatenation of every frame emitted so far, oldest first.
    pub closed spec fn emitted(&self) -> Seq<i64> {
        self.emitted@
    }

    /// Everything ever pushed, oldest first: what came out followed by
    /// what still waits. Order and completeness in one equation.
    pub open spec fn pushed(&self) -> Seq<i64> {
        self.emitted() + self.pending()
    }

    pub closed spec fn frame_size(&self) -> nat {
        self.frame_size as nat
    }

    pub fn new(frame_size: usize) -> (r: FrameAccumulator)
        requires
            frame_size > 0,
        ensures
            r.frame_size() == frame_size,
            r.pending() =~= Seq::<i64>::empty(),
            r.emitted() =~= Seq::<i64>::empty(),
    {
        FrameAccumulator { buffer: Vec::new(), frame_size, emitted: Ghost(Seq::empty()) }
    }

    /// Append a captured chunk, preserving order.
    #[verifier::loop_isolation(false)]
    pub fn push(&mut self, chunk: &Vec<i64>)
        ensures
            final(self).frame_size() == old(self).frame_size(),
            final(self).emitted() == old(self).emitted(),
            final(self).pending() =~= old(self).pending() + chunk@,
    {
        let mut i: usize = 0;
        while i < chunk.len()
            invariant
                i <= chunk@.len(),
                self.buffer@ =~= old(self).buffer@ + chunk@.subrange(0, i as int),
                self.frame_size == old(self).frame_size,
                self.emitted == old(self).emitted,
            decreases chunk@.len() - i,
        {
            self.buffer.push(chunk[i]);
            proof {
                assert(self.buffer@ =~= old(self).buffer@ + chunk@.subrange(0, i + 1 as int));
            }
            i = i + 1;
        }
        proof {
            assert(chunk@.subrange(0, chunk@.len() as int) =~= chunk@);
        }
    }

    /// How many samples are waiting.
    pub fn pending_len(&self) -> (n: usize)
        ensures
            n == self.pending().len(),
    {
        self.buffer.len()
    }

    /// Remove and return exactly one complete frame from the front, if one
    /// is available; otherwise change nothing.
    #[verifier::loop_isolation(false)]
    pub fn try_take_frame(&mut self) -> (r: Option<Vec<i64>>)
        ensures
            final(self).frame_size() == old(self).frame_size(),
            old(self).pending().len() >= old(self).frame_size() ==> match r {
                Some(frame) => {
                    &&& frame@ =~= old(self).pending().subrange(
                        0,
                        old(self).frame_size() as int,
                    )
                    &&& frame@.len() == old(self).frame_size()
                    &&& final(self).pending() =~= old(self).pending().skip(
                        old(self).frame_size() as int,
                    )
                    &&& final(self).emitted() =~= old(self).emitted() + frame@
                },
                None => false,
            },
            old(self).pending().len() < old(self).frame_size() ==> {
                &&& r is None
                &&& final(self).pending() == old(self).pending()
                &&& final(self).emitted() == old(self).emitted()
            },
    {
        if self.buffer.len() < self.frame_size {
            return None;
        }
        let fs = self.frame_size;
        let mut frame: Vec<i64> = Vec::new();
        let mut i: usize = 0;
        while i < fs
            invariant
                i <= fs,
                fs <= self.buffer@.len(),
                frame@ =~= self.buffer@.subrange(0, i as int),
                self == old(self),
            decreases fs - i,
        {
            frame.push(self.buffer[i]);
            proof {
                assert(frame@ =~= self.buffer@.subrange(0, i + 1 as int));
            }
            i = i + 1;
        }
        let mut rest: Vec<i64> = Vec::new();
        let mut j: usize = fs;
        while j < self.buffer.len()
            invariant
                fs <= j <= self.buffer@.len(),
                rest@ =~= self.buffer@.subrange(fs as int, j as int),
                self == old(self),
                frame@ =~= self.buffer@.subrange(0, fs as int),
            decreases self.buffer@.len() - j,
        {
            rest.push(self.buffer[j]);
            proof {
                assert(rest@ =~= self.buffer@.subrange(fs as int, j + 1 as int));
            }
            j = j + 1;
        }
        proof {
            assert(rest@ =~= self.buffer@.skip(fs as int));
        }
        self.buffer = rest;
        proof {
            self.emitted@ = old(self).emitted@ + frame@;
        }
        Some(frame)
    }
}

/// Concatenation of a sequence of frames, oldest frame first.
pub open spec fn concat_frames(frames: Seq<Seq<i64>>) -> Seq<i64>
    decreases frames.len(),
{
    if frames.len() == 0 {
        Seq::empty()
    } else {
        concat_frames(frames.drop_last()) + frames.last()
    }
}

/// Drain every complete frame that is pending, in order.
///
/// Its contract is the accumulator's order/completeness law: the samples
/// that were pending are exactly the concatenated returned frames followed
/// by the short remainder, each returned frame is full, and the remainder
/// is too short to fill another frame.
#[verifier::loop_isolation(false)]
pub fn drain_frames(acc: &mut FrameAccumulator) -> (frames: Vec<Vec<i64>>)
    requires
        old(acc).frame_size() > 0,
    ensures
        final(acc).frame_size() == old(acc).frame_size(),
        old(acc).pending() =~= concat_frames(frames@.map_values(|f: Vec<i64>| f@))
            + final(acc).pending(),
        final(acc).pending().len() < final(acc).frame_size(),
        forall|k: int|
            0 <= k < frames@.len() ==> (#[trigger] frames@[k])@.len() == final(acc).frame_size(),
        final(acc).emitted() =~= old(acc).emitted() + concat_frames(
            frames@.map_values(|f: Vec<i64>| f@),
        ),
{
    let mut frames: Vec<Vec<i64>> = Vec::new();
    loop
        invariant
            acc.frame_size() == old(acc).frame_size(),
            acc.frame_size() > 0,
            old(acc).pending() =~= concat_frames(frames@.map_values(|f: Vec<i64>| f@))
                + acc.pending(),
            forall|k: int|
                0 <= k < frames@.len() ==> (#[trigger] frames@[k])@.len() == acc.frame_size(),
            acc.emitted() =~= old(acc).emitted() + concat_frames(
                frames@.map_values(|f: Vec<i64>| f@),
            ),
        decreases acc.pending().len(),
    {
        let ghost pending_before = acc.pending();
        let ghost views_before = frames@.map_values(|f: Vec<i64>| f@);
        if acc.pending_len() < acc.frame_size_exec() {
            return frames;
        }
        let taken = acc.try_take_frame();
        match taken {
            Some(frame) => {
                proof {
                    assert(pending_before =~= frame@ + acc.pending());
                }
                frames.push(frame);
                proof {
                    let views_after = frames@.map_values(|f: Vec<i64>| f@);
                    assert(views_after.drop_last() =~= views_before);
                    assert(concat_frames(views_after) =~= concat_frames(views_before) + frame@);
                    assert(old(acc).pending() =~= concat_frames(views_after) + acc.pending());
                }
            },
            None => {
                proof {
                    assert(false);
                }
            },
        }
    }
}

impl FrameAccumulator {
    /// The configured frame size.
    pub fn frame_size_exec(&self) -> (n: usize)
        ensures
            n == self.frame_size(),
    {
        self.frame_size
    }
}

/// Extract the first channel of an interleaved multi-channel chunk,
/// down-mixing it to mono (most capture devices report identical channels).
#[verifier::loop_isolation(false)]
pub fn downmix_first_channel(interleaved: &Vec<i64>, channels: usize) -> (r: Vec<i64>)
    requires
        1 <= channels <= 64,
        interleaved@.len() <= 100_000_000,
    ensures
        r@.len() == (interleaved@.len() + channels - 1) / (channels as int),
        forall|k: int|
            0 <= k < r@.len() ==> #[trigger] r@[k] == interleaved@[k * (channels as int)],
{
    let mut out: Vec<i64> = Vec::new();
    let mut i: usize = 0;
    proof {
        vstd::arithmetic::div_mod::lemma_small_mod(0, channels as nat);
        assert(0 * (channels as int) == 0) by (nonlinear_arith);
    }
    while i < interleaved.len()
        invariant
            i <= interleaved@.len() + channels - 1,
            i % channels == 0,
            out@.len() * channels == i,
            forall|k: int|
                0 <= k < out@.len() ==> #[trigger] out@[k] == interleaved@[k * (channels as int)],
        decreases interleaved@.len() + channels - i,
    {
        let ghost count = out@.len() as int;
        out.push(interleaved[i]);
        proof {
            assert(count * (channels as int) == i);
            assert((count + 1) * (channels as int) == count * (channels as int) + channels)
                by (nonlinear_arith);
            vstd::arithmetic::div_mod::lemma_mod_add_multiples_vanish(
                i as int,
                channels as int,
            );
        }
        i = i + channels;
    }
    proof {
        let n = interleaved@.len() as int;
        let c = channels as int;
        let m = out@.len() as int;
        if n == 0 {
            vstd::arithmetic::div_mod::lemma_small_mod(i as nat, channels as nat);
            assert(i == 0);
            assert(m * c == 0 ==> m == 0) by (nonlinear_arith)
                requires
                    c >= 1,
                    m >= 0,
            ;
            assert((n + c - 1) / c == 0) by (nonlinear_arith)
                requires
                    n == 0,
                    c >= 1,
            ;
        } else {
            assert(i < n + c);
            assert(m == (n + c - 1) / c) by (nonlinear_arith)
                requires
                    m * c == i,
                    n <= i,
                    (i as int) < n + c,
                    c >= 1,
                    m >= 0,
            ;
        }
    }
    out
}

/// The playback-side buffer: processed mono samples queue up and the sink's
/// callback drains them, duplicating each across the sink's channels and
/// substituting silence on underrun.
pub struct OutputRing {
    buffer: Vec<i64>,
}

impl OutputRing {
    /// Queued mono samples, oldest first.
    pub closed spec fn queued(&self) -> Seq<i64> {
        self.buffer@
    }

    pub fn new() -> (r: OutputRing)
        ensures
            r.queued() =~= Seq::<i64>::empty(),
    {
        OutputRing { buffer: Vec::new() }
    }

    /// Queue one processed chunk, preserving order.
    #[verifier::loop_isolation(false)]
    pub fn push_chunk(&mut self, chunk: &Vec<i64>)
        ensures
            final(self).queued() =~= old(self).queued() + chunk@,
    {
        let mut i: usize = 0;
        while i < chunk.len()
            invariant
                i <= chunk@.len(),
                self.buffer@ =~= old(self).buffer@ + chunk@.subrange(0, i as int),
            decreases chunk@.len() - i,
        {
            self.buffer.push(chunk[i]);
            proof {
                assert(self.buffer@ =~= old(self).buffer@ + chunk@.subrange(0, i + 1 as int));
            }
            i = i + 1;
        }
        proof {
            assert(chunk@.subrange(0, chunk@.len() as int) =~= chunk@);
        }
    }

    /// How many mono samples wait in the queue.
    pub fn len(&self) -> (r: usize)
        ensures
            r == self.queued().len(),
    {
        self.buffer.len()
    }

    /// Fill a sink callback's buffer: consume up to `frames` queued samples
    /// in order, duplicating each across `channels` interleaved outputs,
    /// and emit silence (zero) for every frame past the queue's end.
    #[verifier::loop_isolation(false)]
    pub fn fill(&mut self, frames: usize, channels: usize) -> (r: Vec<i64>)
        requires
            1 <= channels <= 64,
            frames <= 1_000_000,
        ensures
            r@.len() == frames * channels,
            forall|f: int, c: int|
                0 <= f < frames && 0 <= c < channels ==> #[trigger] r@[f * (channels as int) + c]
                    == (if f < old(self).queued().len() {
                    old(self).queued()[f]
                } else {
                    0i64
                }),
            final(self).queued() =~= (if frames <= old(self).queued().len() {
                old(self).queued().skip(frames as int)
            } else {
                Seq::<i64>::empty()
            }),
    {
        let mut out: Vec<i64> = Vec::new();
        let mut f: usize = 0;
        while f < frames
            invariant
                f <= frames,
                self == old(self),
                out@.len() == f * channels,
                forall|k: int, c: int|
                    0 <= k < f && 0 <= c < channels ==> #[trigger] out@[k * (channels as int) + c]
                        == (if k < old(self).queued().len() {
                        old(self).queued()[k]
                    } else {
                        0i64
                    }),
            decreases frames - f,
        {
            let sample: i64 = if f < self.buffer.len() {
                self.buffer[f]
            } else {
                0
            };
            let ghost out_before = out@;
            let mut c: usize = 0;
            while c < channels
                invariant
                    c <= channels,
                    out@.len() == out_before.len() + c,
                    out@.subrange(0, out_before.len() as int) =~= out_before,
                    forall|j: int|
                        out_before.len() <= j < out@.len() ==> #[trigger] out@[j] == sample,
                decreases channels - c,
            {
                out.push(sample);
                proof {
                    assert(out@.subrange(0, out_before.len() as int) =~= out_before);
                }
                c = c + 1;
            }
            proof {
                assert((f + 1) * (channels as int) == f * (channels as int) + channels)
                    by (nonlinear_arith);
                assert forall|k: int, ch: int|
                    0 <= k < f + 1 && 0 <= ch < channels implies #[trigger] out@[k * (
                channels as int) + ch] == (if k < old(self).queued().len() {
                    old(self).queued()[k]
                } else {
                    0i64
                }) by {
                    if k < f {
                        assert(0 <= k * (channels as int) + ch < out_before.len())
                            by (nonlinear_arith)
                            requires
                                0 <= k < f,
                                0 <= ch < channels,
                                out_before.len() == f * (channels as int),
                        ;
                        assert(out@[k * (channels as int) + ch] == out_before[k * (
                        channels as int) + ch]);
                    } else {
                        assert(k * (channels as int) == f * (channels as int))
                            by (nonlinear_arith)
                            requires
                                k == f,
                        ;
                    }
                }
            }
            f = f + 1;
        }
        // Drop the consumed prefix.
        let consumed = if frames <= self.buffer.len() {
            frames
        } else {
            self.buffer.len()
        };
        let mut rest: Vec<i64> = Vec::new();
        let mut j: usize = consumed;
        let ghost queued_before = self.buffer@;
        while j < self.buffer.len()
            invariant
                consumed <= j <= self.buffer@.len(),
                self.buffer@ == queued_before,
                rest@ =~= queued_before.subrange(consumed as int, j as int),
            decreases self.buffer@.len() - j,
        {
            rest.push(self.buffer[j]);
            proof {
                assert(rest@ =~= queued_before.subrange(consumed as int, j + 1 as int));
            }
            j = j + 1;
        }
        proof {
            assert(rest@ =~= queued_before.skip(consumed as int));
        }
        self.buffer = rest;
        out
    }
}

/// Order/completeness law: when the samples pushed so far total an exact
/// multiple of the frame size and everything has been drained (nothing
/// pending), the concatenated emitted frames equal the concatenated pushed
/// samples exactly.
pub proof fn lemma_accumulator_conservation(acc: &FrameAccumulator)
    ensures
        acc.pushed() == acc.emitted() + acc.pending(),
        acc.pending().len() == 0 ==> acc.pushed() =~= acc.emitted(),
{
    if acc.pending().len() == 0 {
        assert(acc.emitted() + acc.pending() =~= acc.emitted());
    }
}

} // verus!
