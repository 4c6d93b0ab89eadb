use vstd::prelude::*;

use crate::audio::{Sample, SampleFrame};
use crate::shutdown::ShutdownSignal;

verus! {

/// Which sink a codec instance feeds. The two encoder instances of the
/// pipeline — one for the network stream, one for the local file — are
/// created through the same constructor, told apart by this value, and never
/// share any state.
#[derive(Clone, Copy, PartialEq, Eq, Structural, Debug)]
pub enum CodecMode {
    Streaming,
    File,
}

/// What an encoding loop should do at its next iteration boundary.
#[derive(Clone, Copy, PartialEq, Eq, Structural, Debug)]
pub enum EncoderStep {
    /// Keep going: receive the next sample.
    AwaitSample,
    /// Leave the loop: shutdown was requested, or the downstream chunk
    /// channel has failed and nothing more can be delivered.
    Stop,
}

/// The views of a sequence of frames.
pub open spec fn frame_views(fs: Seq<SampleFrame>) -> Seq<Seq<Sample>> {
    fs.map_values(|f: SampleFrame| f@)
}

/// Frame accumulation for one codec instance (§ frame encoding): samples
/// arrive one at a time and are gathered until exactly one frame's worth is
/// present; the full frame is then submitted as a single encode operation,
/// and a finalized chunk is requested eagerly after every submission.
///
/// The frame length is an exact multiple of the channel count by
/// construction, so the codec's contract — a buffer whose length is not such
/// a multiple is a fatal error — is always met.
pub struct FrameEncoder {
    mode: CodecMode,
    channels: usize,
    frame_size: usize,
    pending: Vec<Sample>,
    active: bool,
    submitted: Ghost<Seq<Seq<Sample>>>,
}

impl FrameEncoder {
    /// The encoder never holds a full frame back, and every frame it has
    /// ever submitted was exactly one frame long.
    pub closed spec fn wf(&self) -> bool {
        &&& self.channels >= 1
        &&& self.frame_size >= 1
        &&& self.frame_size % self.channels == 0
        &&& self.pending@.len() < self.frame_size
        &&& forall|k: int|
            0 <= k < self.submitted@.len() ==> (#[trigger] self.submitted@[k]).len()
                == self.frame_size
    }

    /// Which sink this instance feeds.
    pub closed spec fn spec_mode(&self) -> CodecMode {
        self.mode
    }

    /// Interleaved channels per sample group.
    pub closed spec fn spec_channels(&self) -> int {
        self.channels as int
    }

    /// Samples per frame: the per-channel frame length times the channel
    /// count.
    pub closed spec fn spec_frame_size(&self) -> int {
        self.frame_size as int
    }

    /// The samples received since the last full frame, oldest first.
    pub closed spec fn pending_samples(&self) -> Seq<Sample> {
        self.pending@
    }

    /// Every frame submitted to the codec so far, in submission order. Each
    /// submission is one encode operation and one eager chunk request.
    pub closed spec fn submitted_frames(&self) -> Seq<Seq<Sample>> {
        self.submitted@
    }

    /// Whether the encoding loop is still running; cleared for good once the
    /// downstream chunk channel fails.
    pub closed spec fn is_active(&self) -> bool {
        self.active
    }

    /// One codec instance for the given sink, channel count and per-channel
    /// frame length. Nothing has been received or submitted yet.
    pub fn new(mode: CodecMode, channels: usize, samples_per_channel: usize) -> (r: FrameEncoder)
        requires
            1 <= channels,
            1 <= samples_per_channel,
            channels * samples_per_channel <= usize::MAX,
        ensures
            r.wf(),
            r.spec_mode() == mode,
            r.spec_channels() == channels,
            r.spec_frame_size() == channels * samples_per_channel,
            r.pending_samples() == Seq::<Sample>::empty(),
            r.submitted_frames() == Seq::<Seq<Sample>>::empty(),
            r.is_active(),
    {
        let frame_size = channels * samples_per_channel;
        proof {
            assert(1 <= channels * samples_per_channel) by (nonlinear_arith)
                requires
                    1 <= channels && 1 <= samples_per_channel,
            ;
            assert(channels * samples_per_channel == samples_per_channel * channels)
                by (nonlinear_arith);
            vstd::arithmetic::div_mod::lemma_mod_multiples_basic(
                samples_per_channel as int,
                channels as int,
            );
        }
        FrameEncoder {
            mode,
            channels,
            frame_size,
            pending: Vec::new(),
            active: true,
            submitted: Ghost(Seq::empty()),
        }
    }

    /// Takes in one sample. When this sample completes a frame, the frame is
    /// returned for submission to the codec — one encode operation followed
    /// by one eager chunk request — and the accumulation buffer starts over;
    /// otherwise the sample is only appended.
    pub fn push_sample(&mut self, s: Sample) -> (emitted: Option<SampleFrame>)
        requires
            old(self).wf(),
            old(self).is_active(),
        ensures
            final(self).wf(),
            final(self).is_active(),
            final(self).spec_mode() == old(self).spec_mode(),
            final(self).spec_channels() == old(self).spec_channels(),
            final(self).spec_frame_size() == old(self).spec_frame_size(),
            old(self).pending_samples().len() + 1 < old(self).spec_frame_size() ==> {
                &&& emitted is None
                &&& final(self).pending_samples() == old(self).pending_samples().push(s)
                &&& final(self).submitted_frames() == old(self).submitted_frames()
            },
            old(self).pending_samples().len() + 1 == old(self).spec_frame_size() ==> {
                &&& emitted matches Some(f) && f@ == old(self).pending_samples().push(s)
                &&& final(self).pending_samples() == Seq::<Sample>::empty()
                &&& final(self).submitted_frames() == old(self).submitted_frames().push(
                    old(self).pending_samples().push(s),
                )
            },
    {
        self.pending.push(s);
        if self.pending.len() == self.frame_size {
            let mut buf: Vec<Sample> = Vec::new();
            core::mem::swap(&mut buf, &mut self.pending);
            let frame = SampleFrame { samples: buf };
            proof {
                self.submitted@ = self.submitted@.push(frame@);
            }
            Some(frame)
        } else {
            None
        }
    }

    /// Runs the accumulation step over a whole batch of samples, collecting
    /// the frames that were completed, in completion order.
    ///
    /// The contract pins the result down completely: the returned frames,
    /// concatenated, followed by what is still pending, are exactly the old
    /// pending samples followed by the batch — nothing reordered, dropped or
    /// duplicated — and every returned frame is full. In particular, a batch
    /// of N samples arriving on an empty buffer with N an exact multiple of
    /// the frame size yields exactly N / frame-size encode operations and as
    /// many eager chunk requests, with nothing left pending.
    pub fn feed(&mut self, samples: &Vec<Sample>) -> (frames: Vec<SampleFrame>)
        requires
            old(self).wf(),
            old(self).is_active(),
        ensures
            final(self).wf(),
            final(self).is_active(),
            final(self).spec_mode() == old(self).spec_mode(),
            final(self).spec_channels() == old(self).spec_channels(),
            final(self).spec_frame_size() == old(self).spec_frame_size(),
            frame_views(frames@).flatten() + final(self).pending_samples() == old(
                self,
            ).pending_samples() + samples@,
            forall|k: int|
                0 <= k < frames@.len() ==> (#[trigger] frames@[k])@.len() == old(
                    self,
                ).spec_frame_size(),
            final(self).submitted_frames() == old(self).submitted_frames() + frame_views(frames@),
            final(self).pending_samples().len() < old(self).spec_frame_size(),
            (old(self).pending_samples().len() == 0 && samples@.len() as int % old(
                self,
            ).spec_frame_size() == 0) ==> {
                &&& frames@.len() == samples@.len() as int / old(self).spec_frame_size()
                &&& final(self).pending_samples().len() == 0
            },
    {
        let ghost orig = *self;
        let mut frames: Vec<SampleFrame> = Vec::new();
        let mut i: usize = 0;
        while i < samples.len()
            invariant
                i <= samples@.len(),
                self.wf(),
                self.is_active(),
                self.spec_mode() == orig.spec_mode(),
                self.spec_channels() == orig.spec_channels(),
                self.spec_frame_size() == orig.spec_frame_size(),
                frame_views(frames@).flatten() + self.pending_samples() == orig.pending_samples()
                    + samples@.take(i as int),
                forall|k: int|
                    0 <= k < frames@.len() ==> (#[trigger] frames@[k])@.len()
                        == orig.spec_frame_size(),
                self.submitted_frames() == orig.submitted_frames() + frame_views(frames@),
            decreases samples@.len() - i,
        {
            let ghost pend = self.pending_samples();
            let ghost flat = frame_views(frames@).flatten();
            let emitted = self.push_sample(samples[i]);
            proof {
                assert(samples@.take(i + 1) =~= samples@.take(i as int).push(samples@[i as int]));
                assert((orig.pending_samples() + samples@.take(i as int)).push(samples@[i as int])
                    =~= orig.pending_samples() + samples@.take(i + 1));
            }
            if let Some(f) = emitted {
                proof {
                    assert(frame_views(frames@.push(f)) =~= frame_views(frames@).push(f@));
                    frame_views(frames@).lemma_flatten_push(f@);
                    assert(flat + f@ =~= (flat + pend).push(samples@[i as int]));
                    assert((flat + f@) + self.pending_samples() =~= flat + f@);
                }
                frames.push(f);
            } else {
                proof {
                    assert(flat + pend.push(samples@[i as int]) =~= (flat + pend).push(
                        samples@[i as int],
                    ));
                }
            }
            i = i + 1;
        }
        proof {
            assert(samples@.take(i as int) =~= samples@);
            if orig.pending_samples().len() == 0 && samples@.len() as int % orig.spec_frame_size() == 0 {
                lemma_flatten_uniform_len(frame_views(frames@), orig.spec_frame_size() as nat);
                if self.pending_samples().len() != 0 {
                    assert(frame_views(frames@).flatten().len() + self.pending_samples().len()
                        == samples@.len());
                    vstd::arithmetic::div_mod::lemma_fundamental_div_mod_converse(
                        samples@.len() as int,
                        orig.spec_frame_size(),
                        frames@.len() as int,
                        self.pending_samples().len() as int,
                    );
                }
                vstd::arithmetic::div_mod::lemma_div_by_multiple(
                    frames@.len() as int,
                    orig.spec_frame_size(),
                );
            }
        }
        frames
    }

    /// Records that the downstream chunk channel refused a chunk (full or
    /// closed). The condition ends this encoder's loop — and only this one:
    /// nothing else about the encoder changes, and no retry follows, so the
    /// pipeline never buffers without bound.
    pub fn note_chunk_rejected(&mut self)
        ensures
            !final(self).is_active(),
            old(self).wf() ==> final(self).wf(),
            final(self).spec_mode() == old(self).spec_mode(),
            final(self).spec_channels() == old(self).spec_channels(),
            final(self).spec_frame_size() == old(self).spec_frame_size(),
            final(self).pending_samples() == old(self).pending_samples(),
            final(self).submitted_frames() == old(self).submitted_frames(),
    {
        self.active = false;
    }

    /// The loop decision at an iteration boundary: stop as soon as shutdown
    /// is requested or the downstream channel has failed, otherwise wait for
    /// the next sample.
    pub fn poll(&self, sig: &ShutdownSignal) -> (r: EncoderStep)
        ensures
            r == spec_encoder_poll(*self, *sig),
    {
        if sig.is_set() || !self.active {
            EncoderStep::Stop
        } else {
            EncoderStep::AwaitSample
        }
    }
}

/// The encoding loop's decision as a function of its state: it stops exactly
/// when shutdown has been requested or its downstream channel has failed.
pub open spec fn spec_encoder_poll(enc: FrameEncoder, sig: ShutdownSignal) -> EncoderStep {
    if sig.is_fired() || !enc.is_active() {
        EncoderStep::Stop
    } else {
        EncoderStep::AwaitSample
    }
}

/// Concatenating sequences of one common length multiplies that length by
/// their number.
proof fn lemma_flatten_uniform_len(fs: Seq<Seq<Sample>>, k: nat)
    requires
        forall|i: int| 0 <= i < fs.len() ==> (#[trigger] fs[i]).len() == k,
    ensures
        fs.flatten().len() == fs.len() * k,
    decreases fs.len(),
{
    if fs.len() == 0 {
        assert(fs.flatten() =~= Seq::<Sample>::empty());
    } else {
        lemma_flatten_uniform_len(fs.drop_first(), k);
        assert(fs.flatten() == fs.first() + fs.drop_first().flatten());
        assert((fs.len() - 1) * k + k == fs.len() * k) by (nonlinear_arith);
    }
}

} // verus!
