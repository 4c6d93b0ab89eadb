use tau_radio::audio::Sample;
use tau_radio::encoder::{CodecMode, EncoderStep, FrameEncoder};
use tau_radio::shutdown::ShutdownSignal;

fn samples(values: &[u32]) -> Vec<Sample> {
    values.iter().map(|&bits| Sample { bits }).collect()
}

#[test]
fn prefilled_stereo_buffer_yields_exactly_one_frame() {
    // 1920 samples at 2 channels with a 960-sample per-channel frame:
    // exactly one encode operation, one chunk emission.
    let mut enc = FrameEncoder::new(CodecMode::Streaming, 2, 960);
    let batch: Vec<Sample> = (0..1920u32).map(|bits| Sample { bits }).collect();
    let frames = enc.feed(&batch);
    assert_eq!(frames.len(), 1);
    assert_eq!(frames[0].samples.len(), 1920);
    assert_eq!(frames[0].samples, batch);
}

#[test]
fn multiple_of_frame_size_means_one_chunk_per_frame_in_order() {
    // Frame size 2 * 2 = 4; twelve samples make exactly three frames, and
    // the encoded output preserves the input order.
    let mut enc = FrameEncoder::new(CodecMode::Streaming, 2, 2);
    let batch = samples(&[1, 2, 3, 4, 5, 6, 7, 8, 9, 10, 11, 12]);
    let frames = enc.feed(&batch);
    assert_eq!(frames.len(), 3);
    assert_eq!(frames[0].samples, samples(&[1, 2, 3, 4]));
    assert_eq!(frames[1].samples, samples(&[5, 6, 7, 8]));
    assert_eq!(frames[2].samples, samples(&[9, 10, 11, 12]));
}

#[test]
fn partial_frame_is_held_until_completed() {
    let mut enc = FrameEncoder::new(CodecMode::Streaming, 2, 2);
    let frames = enc.feed(&samples(&[1, 2, 3, 4, 5]));
    assert_eq!(frames.len(), 1);
    assert_eq!(frames[0].samples, samples(&[1, 2, 3, 4]));
    // The held-back sample leads the next frame.
    let more = enc.feed(&samples(&[6, 7, 8]));
    assert_eq!(more.len(), 1);
    assert_eq!(more[0].samples, samples(&[5, 6, 7, 8]));
}

#[test]
fn push_sample_emits_only_on_the_frame_boundary() {
    let mut enc = FrameEncoder::new(CodecMode::Streaming, 2, 2);
    assert!(enc.push_sample(Sample { bits: 1 }).is_none());
    assert!(enc.push_sample(Sample { bits: 2 }).is_none());
    assert!(enc.push_sample(Sample { bits: 3 }).is_none());
    let frame = enc.push_sample(Sample { bits: 4 });
    assert!(frame.is_some());
    assert_eq!(frame.unwrap().samples, samples(&[1, 2, 3, 4]));
}

#[test]
fn rejected_chunk_ends_the_encoding_loop() {
    let mut enc = FrameEncoder::new(CodecMode::Streaming, 2, 960);
    let sig = ShutdownSignal::new();
    assert_eq!(enc.poll(&sig), EncoderStep::AwaitSample);
    enc.note_chunk_rejected();
    assert_eq!(enc.poll(&sig), EncoderStep::Stop);
}

#[test]
fn encoder_stops_at_next_poll_after_shutdown() {
    let enc = FrameEncoder::new(CodecMode::File, 2, 960);
    let mut sig = ShutdownSignal::new();
    assert_eq!(enc.poll(&sig), EncoderStep::AwaitSample);
    sig.request();
    assert_eq!(enc.poll(&sig), EncoderStep::Stop);
}
