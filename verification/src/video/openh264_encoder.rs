//! The software H.264 encoder, on top of the `openh264` crate.

use crate::time::Duration;
use crate::video::convert::{bgra_to_i420, lemma_well_formed_is_resizable};
use crate::video::{EncodedSample, Frame, VideoEncoder, VideoError, I420};
use openh264::encoder::{Encoder, FrameRate};
use vstd::prelude::*;

verus! {

/// An encoder of the `openh264` crate.
#[verifier::external_type_specification]
#[verifier::external_body]
pub struct ExEncoder(Encoder);

/// A frame rate of the `openh264` crate.
#[verifier::external_type_specification]
#[verifier::external_body]
pub struct ExFrameRate(FrameRate);

/// An error of the `openh264` crate.
#[verifier::external_type_specification]
#[verifier::external_body]
pub struct ExError(openh264::Error);

/// The bit rate that an encoder was made for.
pub uninterp spec fn target_bitrate(encoder: Encoder) -> u32;

/// The frame rate that an encoder was made for.
pub uninterp spec fn target_rate(encoder: Encoder) -> FrameRate;

/// The next frame of an encoder was asked to be a keyframe.
pub uninterp spec fn intra_asked(encoder: Encoder) -> bool;

/// An encoder has taken no picture since it was made: nothing of an earlier
/// stream is left in it.
pub uninterp spec fn is_fresh(encoder: Encoder) -> bool;

/// `data` is a byte stream that an encoder of the `openh264` crate, made for
/// `bitrate` and `rate`, can make of a picture of `w` x `h` pixels in the planes
/// `y`, `u` and `v` with rows of `y_stride` and `uv_stride` bytes. `first` tells
/// whether it is the encoder's first picture, `intra` whether a keyframe was
/// asked for. Which stream it makes rests on the frames before, on the rate
/// control and on the threads of the machine.
pub uninterp spec fn possible_stream(
    first: bool,
    intra: bool,
    bitrate: u32,
    rate: FrameRate,
    w: nat,
    h: nat,
    y: Seq<u8>,
    u: Seq<u8>,
    v: Seq<u8>,
    y_stride: nat,
    uv_stride: nat,
    data: Seq<u8>,
) -> bool;

/// `openh264::encoder::Encoder::with_api_config`, on the library that the crate
/// was built with: a new encoder is made for the bit rate and the frame rate
/// that it is given, has taken no picture yet and was asked for no keyframe.
/// Whether one can be made rests on the machine.
#[verifier::external_body]
fn new_encoder(bitrate_bps: u32, rate: FrameRate) -> (made: Result<Encoder, openh264::Error>)
    ensures
        made matches Ok(encoder) ==> target_bitrate(encoder) == bitrate_bps && target_rate(encoder)
            == rate && is_fresh(encoder) && !intra_asked(encoder),
{
    let config = openh264::encoder::EncoderConfig::new()
        .bitrate(openh264::encoder::BitRate::from_bps(bitrate_bps))
        .max_frame_rate(rate);
    Encoder::with_api_config(openh264::OpenH264API::from_source(), config)
}

/// `openh264::encoder::Encoder::force_intra_frame`: the next frame is to be a
/// keyframe; what the encoder was made for stays as it is, and so does whether
/// it has taken a picture.
#[verifier::external_body]
fn ask_for_intra(encoder: &mut Encoder)
    ensures
        intra_asked(*final(encoder)),
        is_fresh(*final(encoder)) == is_fresh(*old(encoder)),
        target_bitrate(*final(encoder)) == target_bitrate(*old(encoder)),
        target_rate(*final(encoder)) == target_rate(*old(encoder)),
{
    encoder.force_intra_frame();
}

/// The encoder refuses pictures of more than 3840 pixels on one side or more
/// than 2160 on both, and those of fewer than 16 on one side.
pub open spec fn is_refused(w: nat, h: nat) -> bool {
    w > 3840 || h > 3840 || (w > 2160 && h > 2160) || w < 16 || h < 16
}

/// `openh264::encoder::Encoder::encode` on the planes of a picture, put together
/// with `openh264::formats::YUVSlices::new`, and
/// `openh264::encoder::EncodedBitStream::to_vec` on what it gives. The planes
/// must agree with the size of the picture, or they are not taken. The call
/// fails for pictures that are too large or too small; what else it fails for is
/// not documented. What the encoder was made for stays as it is, and one that
/// has taken a picture is no longer fresh. What the stream holds is not stated,
/// and neither is whether a request for a keyframe is still open afterwards: the
/// codec can report success and leave the stream empty.
#[verifier::external_body]
fn encode_picture(encoder: &mut Encoder, image: &I420) -> (r: Result<Vec<u8>, openh264::Error>)
    requires
        image.is_picture(),
    ensures
        target_bitrate(*final(encoder)) == target_bitrate(*old(encoder)),
        target_rate(*final(encoder)) == target_rate(*old(encoder)),
        is_refused(image.width as nat, image.height as nat) ==> r is Err,
        r is Ok ==> !is_fresh(*final(encoder)),
        r matches Ok(data) ==> possible_stream(
            is_fresh(*old(encoder)),
            intra_asked(*old(encoder)),
            target_bitrate(*old(encoder)),
            target_rate(*old(encoder)),
            image.width as nat,
            image.height as nat,
            image.y@,
            image.u@,
            image.v@,
            image.y_stride as nat,
            image.uv_stride as nat,
            data@,
        ),
{
    let planes = openh264::formats::YUVSlices::new(
        (&image.y, &image.u, &image.v),
        (image.width, image.height),
        (image.y_stride, image.uv_stride, image.uv_stride),
    );
    encoder.encode(&planes).map(|stream| stream.to_vec())
}

/// What a stream rests on besides its picture.
pub struct StreamState {
    /// The codec has taken no picture yet.
    pub first: bool,
    /// A keyframe was asked for.
    pub intra: bool,
    pub bitrate: u32,
    pub rate: FrameRate,
}

/// `sample` holds a byte stream that a codec in `state` can make of `image`.
pub open spec fn is_encoding(sample: EncodedSample, state: StreamState, image: &I420) -> bool {
    possible_stream(
        state.first,
        state.intra,
        state.bitrate,
        state.rate,
        image.width as nat,
        image.height as nat,
        image.y@,
        image.u@,
        image.v@,
        image.y_stride as nat,
        image.uv_stride as nat,
        sample.data@,
    )
}

/// `sample` holds a byte stream that a codec in `state` can make of planes that
/// the pixels of `frame` become.
pub open spec fn is_encoding_of(sample: EncodedSample, state: StreamState, frame: &Frame) -> bool {
    let w = frame.width as nat;
    let h = frame.height as nat;
    exists|image: I420|
        crate::video::convert::is_i420(&image, crate::video::convert::resized(frame, w, h), w, h)
            && #[trigger] is_encoding(sample, state, &image)
}

/// A call of an encoder. `made` tells whether a codec could be made for it.
pub enum EncoderCall {
    Encode { force_idr: bool },
    SetBitrate { bitrate_bps: u32, made: bool },
    Reset { made: bool },
}

/// What decides which frames are keyframes.
pub struct EncoderState {
    pub bitrate: u32,
    /// The next frame will be a keyframe, whether it is asked to be or not.
    pub keyframe_due: bool,
}

impl EncoderState {
    /// `call` puts a new codec to use.
    pub open spec fn renewed_by(self, call: EncoderCall) -> bool {
        match call {
            EncoderCall::Encode { .. } => false,
            EncoderCall::SetBitrate { bitrate_bps, made } => made && bitrate_bps != self.bitrate,
            EncoderCall::Reset { made } => made,
        }
    }

    /// The state after `call`.
    pub open spec fn step(self, call: EncoderCall) -> EncoderState {
        match call {
            EncoderCall::Encode { .. } => EncoderState { keyframe_due: false, ..self },
            EncoderCall::SetBitrate { bitrate_bps, .. } => if self.renewed_by(call) {
                EncoderState { bitrate: bitrate_bps, keyframe_due: true }
            } else {
                self
            },
            EncoderCall::Reset { .. } => if self.renewed_by(call) {
                EncoderState { keyframe_due: true, ..self }
            } else {
                self
            },
        }
    }

    /// The state after each of `calls` in turn.
    pub open spec fn after(self, calls: Seq<EncoderCall>) -> EncoderState
        decreases calls.len(),
    {
        if calls.len() == 0 {
            self
        } else {
            self.after(calls.drop_last()).step(calls.last())
        }
    }

    /// One of `calls` put a new codec to use, and no frame was encoded since.
    pub open spec fn renewed_in(self, calls: Seq<EncoderCall>) -> bool {
        exists|i: int|
            0 <= i < calls.len() && self.after(calls.take(i)).renewed_by(#[trigger] calls[i])
                && forall|j: int| i < j < calls.len() ==> !(#[trigger] calls[j] is Encode)
    }
}

/// Software H.264 encoder. It owns the codec, the duration of a frame, and what
/// is needed to make the codec anew when the bit rate changes.
pub struct Openh264Encoder {
    encoder: Encoder,
    rate: FrameRate,
    frame_dur: Duration,
    bitrate_bps: u32,
    force_idr_next: bool,
}

impl Openh264Encoder {
    /// The target bit rate.
    pub closed spec fn bitrate(&self) -> u32 {
        self.bitrate_bps
    }

    /// The frame rate.
    pub closed spec fn rate(&self) -> FrameRate {
        self.rate
    }

    /// The nominal duration of a sample.
    pub closed spec fn frame_duration(&self) -> Duration {
        self.frame_dur
    }

    /// The next frame will be a keyframe, whether it is asked to be or not.
    pub closed spec fn keyframe_due(&self) -> bool {
        self.force_idr_next
    }

    /// The codec runs at the target bit rate and the frame rate.
    pub closed spec fn well_formed(&self) -> bool {
        target_bitrate(self.encoder) == self.bitrate_bps && target_rate(self.encoder) == self.rate
    }

    /// The codec has taken no picture since it was made.
    pub closed spec fn codec_is_fresh(&self) -> bool {
        is_fresh(self.encoder)
    }

    /// The codec was asked for a keyframe that may be yet to come.
    pub closed spec fn intra_pending(&self) -> bool {
        intra_asked(self.encoder)
    }

    /// What decides which frames are keyframes.
    pub open spec fn state(&self) -> EncoderState {
        EncoderState { bitrate: self.bitrate(), keyframe_due: self.keyframe_due() }
    }

    /// What the stream of a frame rests on, when the frame is to be a keyframe
    /// or not.
    pub open spec fn stream_state(&self, keyframe: bool) -> StreamState {
        StreamState {
            first: self.codec_is_fresh(),
            intra: keyframe || self.intra_pending(),
            bitrate: self.bitrate(),
            rate: self.rate(),
        }
    }

    /// `codec` is the codec in use.
    pub closed spec fn uses(&self, codec: Encoder) -> bool {
        self.encoder == codec
    }

    /// An encoder for `bitrate_bps` and `rate`, whose samples nominally cover
    /// `frame_dur`. The resolution is that of each frame as it comes.
    pub fn new(
        _width: u32,
        _height: u32,
        bitrate_bps: u32,
        rate: FrameRate,
        frame_dur: Duration,
    ) -> (r: Result<Openh264Encoder, VideoError>)
        ensures
            match r {
                Ok(e) => {
                    &&& e.well_formed()
                    &&& e.codec_is_fresh()
                    &&& e.bitrate() == bitrate_bps
                    &&& e.rate() == rate
                    &&& e.frame_duration() == frame_dur
                    &&& !e.keyframe_due()
                    &&& !e.intra_pending()
                },
                Err(e) => e is Openh264,
            },
    {
        match new_encoder(bitrate_bps, rate) {
            Ok(encoder) => Ok(
                Openh264Encoder { encoder, rate, frame_dur, bitrate_bps, force_idr_next: false },
            ),
            Err(e) => Err(VideoError::Openh264(e)),
        }
    }

    /// Put `made` to use as the codec for `bitrate_bps`. A fresh codec must
    /// open with a keyframe, so that the decoder finds its way again. Where
    /// none could be made, everything stays as it was.
    pub fn adopt(&mut self, made: Result<Encoder, openh264::Error>, bitrate_bps: u32)
        ensures
            match made {
                Ok(codec) => {
                    &&& final(self).uses(codec)
                    &&& final(self).bitrate() == bitrate_bps
                    &&& final(self).rate() == old(self).rate()
                    &&& final(self).frame_duration() == old(self).frame_duration()
                    &&& final(self).keyframe_due()
                    &&& final(self).codec_is_fresh() == is_fresh(codec)
                    &&& final(self).intra_pending() == intra_asked(codec)
                    &&& final(self).well_formed() == (target_bitrate(codec) == bitrate_bps
                        && target_rate(codec) == old(self).rate())
                },
                Err(_) => *final(self) == *old(self),
            },
    {
        match made {
            Ok(codec) => {
                self.encoder = codec;
                self.bitrate_bps = bitrate_bps;
                self.force_idr_next = true;
            },
            Err(_) => {},
        }
    }

    /// The sample of a frame that the codec made `outcome` of.
    pub fn sample_of(
        outcome: Result<Vec<u8>, openh264::Error>,
        duration: Duration,
        keyframe: bool,
    ) -> (r: Result<EncodedSample, VideoError>)
        ensures
            match outcome {
                Ok(data) => r == Ok::<EncodedSample, VideoError>(
                    EncodedSample { data, duration, keyframe },
                ),
                Err(e) => r == Err::<EncodedSample, VideoError>(VideoError::Openh264(e)),
            },
    {
        match outcome {
            Ok(data) => Ok(EncodedSample { data, duration, keyframe }),
            Err(e) => Err(VideoError::Openh264(e)),
        }
    }

    /// Encode one captured frame, at its own size.
    pub fn encode_frame(&mut self, frame: &Frame, force_idr: bool) -> (r: Result<
        EncodedSample,
        VideoError,
    >)
        requires
            frame.encodable(),
        ensures
            old(self).well_formed() ==> final(self).well_formed(),
            final(self).state() == old(self).state().step(EncoderCall::Encode { force_idr }),
            final(self).rate() == old(self).rate(),
            final(self).frame_duration() == old(self).frame_duration(),
            r is Ok ==> !final(self).codec_is_fresh(),
            is_refused(frame.width as nat, frame.height as nat) ==> r is Err,
            match r {
                Ok(sample) => {
                    &&& sample.keyframe == (force_idr || old(self).keyframe_due())
                    &&& sample.duration == old(self).frame_duration()
                    &&& old(self).well_formed() ==> is_encoding_of(
                        sample,
                        old(self).stream_state(sample.keyframe),
                        frame,
                    )
                },
                Err(e) => e is Openh264,
            },
    {
        proof {
            lemma_encodable_is_convertible(frame);
        }
        let image: I420 = bgra_to_i420(frame, frame.width as usize, frame.height as usize);
        self.encode(&image, force_idr)
    }
}

impl VideoEncoder for Openh264Encoder {
    /// Encode one picture. It is a keyframe where one is asked for or due, and
    /// none is due after it, whether it could be encoded or not.
    fn encode(&mut self, frame: &I420, force_idr: bool) -> (r: Result<
        EncodedSample,
        VideoError,
    >)
        ensures
            old(self).well_formed() ==> final(self).well_formed(),
            final(self).state() == old(self).state().step(EncoderCall::Encode { force_idr }),
            final(self).rate() == old(self).rate(),
            final(self).frame_duration() == old(self).frame_duration(),
            r is Ok ==> !final(self).codec_is_fresh(),
            is_refused(frame.width as nat, frame.height as nat) ==> r is Err,
            match r {
                Ok(sample) => {
                    &&& sample.keyframe == (force_idr || old(self).keyframe_due())
                    &&& sample.duration == old(self).frame_duration()
                    &&& old(self).well_formed() ==> is_encoding(
                        sample,
                        old(self).stream_state(sample.keyframe),
                        frame,
                    )
                },
                Err(e) => e is Openh264,
            },
    {
        let idr: bool = force_idr || self.force_idr_next;
        if idr {
            ask_for_intra(&mut self.encoder);
        }
        self.force_idr_next = false;
        let outcome: Result<Vec<u8>, openh264::Error> = encode_picture(&mut self.encoder, frame);
        // parameter sets come with each intra frame: a forced one is a keyframe
        Openh264Encoder::sample_of(outcome, self.frame_dur, idr)
    }

    /// Go on with a fresh codec for `bitrate_bps`, and open with a keyframe. A
    /// bit rate that is in use already changes nothing. Where no codec can be
    /// made, everything stays as it was.
    fn set_bitrate(&mut self, bitrate_bps: u32)
        ensures
            old(self).well_formed() ==> final(self).well_formed(),
            final(self).rate() == old(self).rate(),
            final(self).frame_duration() == old(self).frame_duration(),
            bitrate_bps == old(self).bitrate() ==> *final(self) == *old(self),
            bitrate_bps != old(self).bitrate() ==> *final(self) == *old(self) || (
            final(self).state() == old(self).state().step(
                EncoderCall::SetBitrate { bitrate_bps, made: true },
            ) && final(self).codec_is_fresh() && !final(self).intra_pending()
                && final(self).well_formed()),
    {
        if bitrate_bps == self.bitrate_bps {
            return;
        }
        let made: Result<Encoder, openh264::Error> = new_encoder(bitrate_bps, self.rate);
        self.adopt(made, bitrate_bps);
    }

    /// Go on with a fresh codec for the same bit rate, and open with a keyframe.
    /// Where no codec can be made, everything stays as it was.
    fn reset(&mut self)
        ensures
            old(self).well_formed() ==> final(self).well_formed(),
            final(self).rate() == old(self).rate(),
            final(self).frame_duration() == old(self).frame_duration(),
            *final(self) == *old(self) || (final(self).state() == old(self).state().step(
                EncoderCall::Reset { made: true },
            ) && final(self).codec_is_fresh() && !final(self).intra_pending()
                && final(self).well_formed()),
    {
        let made: Result<Encoder, openh264::Error> = new_encoder(self.bitrate_bps, self.rate);
        self.adopt(made, self.bitrate_bps);
    }
}

/// Whatever calls an encoder gets, a keyframe is due for its next frame exactly
/// where a new codec was put to use, by a reset or by another bit rate than the
/// one then in force, and no frame was encoded since. Every other frame is a
/// keyframe only where one is asked for.
pub proof fn law_keyframes_are_forced_or_follow_a_new_codec(
    start: EncoderState,
    calls: Seq<EncoderCall>,
)
    requires
        !start.keyframe_due,
    ensures
        start.after(calls).keyframe_due == start.renewed_in(calls),
    decreases calls.len(),
{
    if calls.len() > 0 {
        let before = calls.drop_last();
        let last = calls.len() - 1;
        law_keyframes_are_forced_or_follow_a_new_codec(start, before);
        assert(calls.take(last) =~= before);
        assert forall|i: int| 0 <= i < last implies #[trigger] calls.take(i) == before.take(i) by {
            assert(calls.take(i) =~= before.take(i));
        }
        if start.renewed_in(before) && !(calls[last] is Encode) {
            let i = choose|i: int|
                0 <= i < before.len() && start.after(before.take(i)).renewed_by(#[trigger] before[i])
                    && forall|j: int| i < j < before.len() ==> !(#[trigger] before[j] is Encode);
            assert(calls[i] == before[i]);
            assert(calls.take(i) == before.take(i));
            assert forall|j: int| i < j < calls.len() implies !(#[trigger] calls[j] is Encode) by {
                if j < last {
                    assert(!(before[j] is Encode));
                }
            }
            assert(start.renewed_in(calls));
        }
        if start.renewed_in(calls) && !start.after(before).renewed_by(calls[last]) {
            let i = choose|i: int|
                0 <= i < calls.len() && start.after(calls.take(i)).renewed_by(#[trigger] calls[i])
                    && forall|j: int| i < j < calls.len() ==> !(#[trigger] calls[j] is Encode);
            assert(i < last);
            assert(!(calls[last] is Encode));
            assert(before[i] == calls[i]);
            assert(calls.take(i) == before.take(i));
            assert forall|j: int| i < j < before.len() implies !(#[trigger] before[j] is Encode) by {
                assert(!(calls[j] is Encode));
            }
            assert(start.renewed_in(before));
        }
        if start.after(before).renewed_by(calls[last]) {
            assert(start.renewed_in(calls));
        }
    }
}

/// A frame that can go to an encoder can be converted at its own size, and its
/// planes are a picture.
proof fn lemma_encodable_is_convertible(frame: &Frame)
    requires
        frame.encodable(),
    ensures
        crate::video::convert::convertible(frame, frame.width as nat, frame.height as nat),
        frame.width / 2 == crate::video::convert::half_up(frame.width as nat),
        frame.height / 2 == crate::video::convert::half_up(frame.height as nat),
{
    let w = frame.width as nat;
    let h = frame.height as nat;
    lemma_well_formed_is_resizable(frame, w, h);
    if crate::video::convert::fits_already(frame, w, h) {
        assert(4 * (h * w) == frame.stride * (h - 1) + 4 * w) by (nonlinear_arith)
            requires
                frame.stride == 4 * w,
        ;
    }
}

/// The bit rate in force is the last one that a codec was made for: a change
/// takes hold where its codec was made, and nothing else changes the bit rate.
pub proof fn law_bit_rates_take_hold(state: EncoderState, bitrate_bps: u32, call: EncoderCall)
    requires
        !(call is SetBitrate),
    ensures
        state.step(EncoderCall::SetBitrate { bitrate_bps, made: true }).bitrate == bitrate_bps,
        state.step(EncoderCall::SetBitrate { bitrate_bps, made: false }) == state,
        state.step(call).bitrate == state.bitrate,
        state.step(EncoderCall::Reset { made: false }) == state,
        state.step(EncoderCall::Reset { made: true }).keyframe_due,
        bitrate_bps != state.bitrate ==> state.step(
            EncoderCall::SetBitrate { bitrate_bps, made: true },
        ).keyframe_due,
        bitrate_bps == state.bitrate ==> state.step(
            EncoderCall::SetBitrate { bitrate_bps, made: true },
        ) == state,
{
}

/// The stream of a sample is one of the picture that was handed in, at the bit
/// rate and the frame rate of the encoder, with a keyframe asked for exactly
/// where the sample is one or a request is still open.
pub proof fn law_streams_are_those_of_the_picture(
    encoder: &Openh264Encoder,
    sample: EncodedSample,
    image: &I420,
)
    requires
        is_encoding(sample, encoder.stream_state(sample.keyframe), image),
    ensures
        possible_stream(
            encoder.codec_is_fresh(),
            sample.keyframe || encoder.intra_pending(),
            encoder.bitrate(),
            encoder.rate(),
            image.width as nat,
            image.height as nat,
            image.y@,
            image.u@,
            image.v@,
            image.y_stride as nat,
            image.uv_stride as nat,
            sample.data@,
        ),
        encoder.state() == (EncoderState {
            bitrate: encoder.bitrate(),
            keyframe_due: encoder.keyframe_due(),
        }),
{
}

/// The stream of a frame is one of its own pixels at its own size.
pub proof fn law_frames_are_encoded_at_their_size(
    sample: EncodedSample,
    state: StreamState,
    frame: &Frame,
) -> (image: I420)
    requires
        is_encoding_of(sample, state, frame),
    ensures
        image.width == frame.width && image.height == frame.height,
        is_encoding(sample, state, &image),
        crate::video::convert::is_i420(
            &image,
            crate::video::convert::resized(frame, frame.width as nat, frame.height as nat),
            frame.width as nat,
            frame.height as nat,
        ),
{
    let w = frame.width as nat;
    let h = frame.height as nat;
    choose|image: I420|
        crate::video::convert::is_i420(&image, crate::video::convert::resized(frame, w, h), w, h)
            && #[trigger] is_encoding(sample, state, &image)
}

} // verus!
