use vstd::prelude::*;

use crate::audio::{Sample, SampleFrame};
use crate::encoder::{CodecMode, FrameEncoder};
use crate::shutdown::ShutdownSignal;

verus! {

/// What the recording loop should do at its next iteration boundary.
#[derive(Clone, Copy, PartialEq, Eq, Structural, Debug)]
pub enum RecorderStep {
    /// Keep going: receive the next sample.
    AwaitSample,
    /// Leave the loop: shutdown was requested, or a write failed and the
    /// recording path has ended.
    Stop,
}

/// The local recording path (§ local recorder): its own codec instance in
/// file mode, fed the same logical samples as the network-bound encoder but
/// never sharing any state with it. A write failure ends this path — and
/// only this path; the network side is a different object entirely and
/// cannot be touched by anything that happens here.
pub struct Recorder {
    enc: FrameEncoder,
    failed: bool,
}

impl Recorder {
    /// The underlying frame accumulation is well formed.
    pub closed spec fn wf(&self) -> bool {
        &&& self.enc.wf()
        &&& self.enc.is_active()
        &&& self.enc.spec_mode() == CodecMode::File
    }

    /// Whether the recording path is still alive; cleared for good by the
    /// first write failure.
    pub closed spec fn is_recording(&self) -> bool {
        !self.failed
    }

    /// Samples received since the last full frame.
    pub closed spec fn pending_samples(&self) -> Seq<Sample> {
        self.enc.pending_samples()
    }

    /// Samples per frame.
    pub closed spec fn spec_frame_size(&self) -> int {
        self.enc.spec_frame_size()
    }

    /// Every frame handed to the file encoder so far, in order.
    pub closed spec fn written_frames(&self) -> Seq<Seq<Sample>> {
        self.enc.submitted_frames()
    }

    /// A fresh recording path writing to a newly created file: its own codec
    /// instance in file mode, nothing received, nothing written.
    pub fn new(channels: usize, samples_per_channel: usize) -> (r: Recorder)
        requires
            1 <= channels,
            1 <= samples_per_channel,
            channels * samples_per_channel <= usize::MAX,
        ensures
            r.wf(),
            r.is_recording(),
            r.spec_frame_size() == channels * samples_per_channel,
            r.pending_samples() == Seq::<Sample>::empty(),
            r.written_frames() == Seq::<Seq<Sample>>::empty(),
    {
        Recorder { enc: FrameEncoder::new(CodecMode::File, channels, samples_per_channel), failed: false }
    }

    /// Takes in one sample; a completed frame is returned for one write to
    /// durable storage, exactly as the network-bound accumulation works.
    pub fn push_sample(&mut self, s: Sample) -> (emitted: Option<SampleFrame>)
        requires
            old(self).wf(),
            old(self).is_recording(),
        ensures
            final(self).wf(),
            final(self).is_recording(),
            final(self).spec_frame_size() == old(self).spec_frame_size(),
            old(self).pending_samples().len() + 1 < old(self).spec_frame_size() ==> {
                &&& emitted is None
                &&& final(self).pending_samples() == old(self).pending_samples().push(s)
                &&& final(self).written_frames() == old(self).written_frames()
            },
            old(self).pending_samples().len() + 1 == old(self).spec_frame_size() ==> {
                &&& emitted matches Some(f) && f@ == old(self).pending_samples().push(s)
                &&& final(self).pending_samples() == Seq::<Sample>::empty()
                &&& final(self).written_frames() == old(self).written_frames().push(
                    old(self).pending_samples().push(s),
                )
            },
    {
        self.enc.push_sample(s)
    }

    /// Records that a write to storage failed (the disk is full, the file is
    /// gone). The recording path ends here, for good; nothing else changes,
    /// and nothing outside this object is affected.
    pub fn note_write_failed(&mut self)
        ensures
            !final(self).is_recording(),
            final(self).wf() == old(self).wf(),
            final(self).spec_frame_size() == old(self).spec_frame_size(),
            final(self).pending_samples() == old(self).pending_samples(),
            final(self).written_frames() == old(self).written_frames(),
    {
        self.failed = true;
    }

    /// The loop decision at an iteration boundary: stop as soon as shutdown
    /// is requested or a write has failed, otherwise wait for the next
    /// sample.
    pub fn poll(&self, sig: &ShutdownSignal) -> (r: RecorderStep)
        ensures
            r == spec_recorder_poll(*self, *sig),
    {
        if sig.is_set() || self.failed {
            RecorderStep::Stop
        } else {
            RecorderStep::AwaitSample
        }
    }
}

/// The recording loop's decision as a function of its state: it stops
/// exactly when shutdown has been requested or a write has failed.
pub open spec fn spec_recorder_poll(rec: Recorder, sig: ShutdownSignal) -> RecorderStep {
    if sig.is_fired() || !rec.is_recording() {
        RecorderStep::Stop
    } else {
        RecorderStep::AwaitSample
    }
}

} // verus!
