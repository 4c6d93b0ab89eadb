use vstd::prelude::*;

use crate::broadcast::{spec_broadcaster_poll, BroadcastStep};
use crate::encoder::{spec_encoder_poll, EncoderStep, FrameEncoder};
use crate::recorder::{spec_recorder_poll, Recorder, RecorderStep};
use crate::sender::{spec_sender_poll, SenderModel, SenderStep};
use crate::shutdown::ShutdownSignal;

verus! {

/// Law: once shutdown has been requested, every loop of the pipeline decides
/// to stop at its very next poll — the broadcaster whatever the ring buffer
/// holds, both encoders, the network sender in every session state, and the
/// recorder. No loop keeps waiting on a channel or a buffer once the signal
/// is up, so all of them terminate within one poll cycle.
pub proof fn lemma_shutdown_stops_every_loop(
    sig: ShutdownSignal,
    sample_ready: bool,
    enc: FrameEncoder,
    snd: SenderModel,
    rec: Recorder,
)
    requires
        sig.is_fired(),
    ensures
        spec_broadcaster_poll(sig, sample_ready) == BroadcastStep::Stop,
        spec_encoder_poll(enc, sig) == EncoderStep::Stop,
        spec_sender_poll(snd, sig) == SenderStep::Stop,
        spec_recorder_poll(rec, sig) == RecorderStep::Stop,
{
}

} // verus!
