//! The logic of the macOS VideoToolbox hardware H.264 encoder.
//!
//! VideoToolbox hands compressed frames back through a callback, as a list of
//! length-prefixed NAL units with the parameter sets kept apart. A decoder at
//! the other end wants one byte stream with start codes. This module turns the
//! one into the other, and decides what is asked of VideoToolbox for each
//! frame: the program makes the calls and reports how each went.

use crate::time::Duration;
use crate::video::EncodedSample;
use vstd::prelude::*;

verus! {

/// The length that four bytes give, the most significant first.
pub open spec fn be32(bytes: Seq<u8>) -> int
    recommends
        bytes.len() >= 4,
{
    0x100_0000 * bytes[0] + 0x1_0000 * bytes[1] + 0x100 * bytes[2] + bytes[3]
}

/// The NAL units of a buffer that holds them one after the other, each behind
/// its length in four bytes. The list ends where the bytes do, or before a unit
/// that is empty or longer than what is left.
pub open spec fn nal_units(avcc: Seq<u8>) -> Seq<Seq<u8>>
    decreases avcc.len(),
{
    if avcc.len() < 4 || be32(avcc) == 0 || 4 + be32(avcc) > avcc.len() {
        Seq::empty()
    } else {
        seq![avcc.subrange(4, 4 + be32(avcc))] + nal_units(avcc.skip(4 + be32(avcc)))
    }
}

/// The code that stands before each NAL unit of a byte stream.
pub open spec fn start_code() -> Seq<u8> {
    seq![0u8, 0u8, 0u8, 1u8]
}

/// The byte stream of `units`: each behind a start code.
pub open spec fn annexb(units: Seq<Seq<u8>>) -> Seq<u8>
    decreases units.len(),
{
    if units.len() == 0 {
        Seq::empty()
    } else {
        annexb(units.drop_last()) + start_code() + units.last()
    }
}

/// A byte stream can be put together from its first units and the rest.
pub proof fn lemma_annexb_concat(a: Seq<Seq<u8>>, b: Seq<Seq<u8>>)
    ensures
        annexb(a + b) == annexb(a) + annexb(b),
    decreases b.len(),
{
    if b.len() == 0 {
        assert(a + b =~= a);
        assert(annexb(a) + annexb(b) =~= annexb(a));
    } else {
        assert((a + b).drop_last() =~= a + b.drop_last());
        lemma_annexb_concat(a, b.drop_last());
        assert(annexb(a + b) =~= annexb(a) + annexb(b));
    }
}

/// Append one NAL unit behind a start code.
fn push_unit(out: &mut Vec<u8>, unit: &[u8])
    ensures
        final(out)@ == old(out)@ + start_code() + unit@,
{
    out.push(0);
    out.push(0);
    out.push(0);
    out.push(1);
    assert(out@ =~= old(out)@ + start_code());
    out.extend_from_slice(unit);
    assert(out@ =~= old(out)@ + start_code() + unit@);
}

/// Append the NAL units of `avcc` to `out` as a byte stream.
pub fn append_annexb(avcc: &[u8], out: &mut Vec<u8>)
    ensures
        final(out)@ == old(out)@ + annexb(nal_units(avcc@)),
{
    let total: usize = avcc.len();
    let ghost before = out@;
    let ghost mut done: Seq<Seq<u8>> = Seq::empty();
    let mut i: usize = 0;
    assert(avcc@.skip(0) =~= avcc@);
    assert(done + nal_units(avcc@) =~= nal_units(avcc@));
    assert(before + annexb(done) =~= before);
    while total - i >= 4
        invariant
            total == avcc@.len(),
            i <= total,
            nal_units(avcc@) == done + nal_units(avcc@.skip(i as int)),
            out@ == before + annexb(done),
        ensures
            out@ == before + annexb(done),
            nal_units(avcc@) == done,
        decreases total - i,
    {
        let ghost rest = avcc@.skip(i as int);
        let len: usize = avcc[i] as usize * 0x100_0000 + avcc[i + 1] as usize * 0x1_0000 + avcc[i
            + 2] as usize * 0x100 + avcc[i + 3] as usize;
        assert(len == be32(rest));
        if len == 0 || len > total - i - 4 {
            assert(nal_units(rest) =~= Seq::<Seq<u8>>::empty());
            assert(done + nal_units(rest) =~= done);
            break;
        }
        let unit: &[u8] = vstd::slice::slice_subrange(avcc, i + 4, i + 4 + len);
        push_unit(out, unit);
        proof {
            assert(unit@ =~= rest.subrange(4, 4 + be32(rest)));
            assert(rest.skip(4 + be32(rest)) =~= avcc@.skip(i + 4 + len));
            assert(done.push(unit@).drop_last() =~= done);
            assert(annexb(done.push(unit@)) == annexb(done) + start_code() + unit@);
            assert(out@ =~= before + annexb(done.push(unit@)));
            assert(done.push(unit@) + nal_units(avcc@.skip(i + 4 + len)) =~= done + (seq![unit@]
                + nal_units(avcc@.skip(i + 4 + len))));
            done = done.push(unit@);
        }
        i = i + 4 + len;
        if total - i < 4 {
            assert(nal_units(avcc@.skip(i as int)) =~= Seq::<Seq<u8>>::empty());
            assert(done + nal_units(avcc@.skip(i as int)) =~= done);
        }
    }
}

/// The four bytes that give a length, the most significant first.
pub open spec fn length_prefix(len: nat) -> Seq<u8> {
    seq![
        (len / 0x100_0000) as u8,
        (len / 0x1_0000 % 0x100) as u8,
        (len / 0x100 % 0x100) as u8,
        (len % 0x100) as u8,
    ]
}

/// The buffer that holds `units` one after the other, each behind its length.
pub open spec fn length_prefixed(units: Seq<Seq<u8>>) -> Seq<u8>
    decreases units.len(),
{
    if units.len() == 0 {
        Seq::empty()
    } else {
        length_prefix(units[0].len()) + units[0] + length_prefixed(units.drop_first())
    }
}

proof fn lemma_length_prefix(len: nat)
    requires
        len < 0x1_0000_0000,
    ensures
        be32(length_prefix(len)) == len,
{
    assert(len / 0x1_0000 == 0x100 * (len / 0x100_0000) + len / 0x1_0000 % 0x100);
    assert(len / 0x100 == 0x100 * (len / 0x1_0000) + len / 0x100 % 0x100);
}

/// The first unit of a buffer that starts with `unit` is that unit.
proof fn lemma_first_unit(unit: Seq<u8>, tail: Seq<u8>)
    requires
        0 < unit.len() < 0x1_0000_0000,
    ensures
        nal_units(length_prefix(unit.len()) + unit + tail) == seq![unit] + nal_units(tail),
{
    let prefix = length_prefix(unit.len());
    let all = prefix + unit + tail;
    let n = unit.len() as int;
    assert(be32(all) == n) by {
        lemma_length_prefix(unit.len());
        assert(all[0] == prefix[0] && all[1] == prefix[1] && all[2] == prefix[2] && all[3]
            == prefix[3]);
    }
    assert(all.len() == 4 + n + tail.len());
    assert(all.subrange(4, 4 + n) =~= unit);
    assert(all.skip(4 + n) =~= tail);
}

/// No NAL unit is lost or changed on its way from a length-prefixed buffer into
/// a byte stream, as long as each has a length that four bytes can give.
pub proof fn law_units_survive(units: Seq<Seq<u8>>)
    requires
        forall|i: int| 0 <= i < units.len() ==> 0 < (#[trigger] units[i]).len() < 0x1_0000_0000,
    ensures
        nal_units(length_prefixed(units)) == units,
    decreases units.len(),
{
    if units.len() > 0 {
        let rest = units.drop_first();
        assert forall|i: int| 0 <= i < rest.len() implies 0 < (#[trigger] rest[i]).len()
            < 0x1_0000_0000 by {
            assert(rest[i] == units[i + 1]);
        }
        law_units_survive(rest);
        lemma_first_unit(units[0], length_prefixed(rest));
        assert(seq![units[0]] + rest =~= units);
    }
}

/// What went wrong between a compressed sample and its bytes.
#[derive(Debug, Clone, Copy, PartialEq, Eq, Structural)]
pub enum SampleError {
    /// VideoToolbox reported a failure, gave no sample or dropped the frame.
    NotEncoded { status: i32, dropped: bool },
    /// A keyframe came without a format description.
    NoFormatDescription,
    /// The number of parameter sets could not be read.
    ParameterSetCount { status: i32 },
    /// A parameter set could not be read.
    ParameterSet { index: usize, status: i32 },
    /// The sample came without data.
    NoDataBuffer,
    /// The data could not be located.
    DataPointer { status: i32 },
    /// Data in several pieces could not be copied out.
    CopyData { status: i32 },
}

/// The parameter sets of a sample's format description, as far as they could be
/// read.
#[derive(Debug, PartialEq, Eq)]
pub enum ParameterSets {
    /// There is no format description.
    NoFormat,
    /// Their number could not be read.
    NoCount { status: i32 },
    /// They could all be read.
    Read(Vec<Vec<u8>>),
    /// The one at `index` could not be read.
    Unread { index: usize, status: i32 },
}

/// The data of a sample, as far as it could be read.
#[derive(Debug, PartialEq, Eq)]
pub enum SampleData {
    /// There is none.
    NoBuffer,
    /// It could not be located.
    NoPointer { status: i32 },
    /// It could not be copied out.
    NoCopy { status: i32 },
    /// Length-prefixed NAL units.
    Read(Vec<u8>),
}

/// A compressed sample as VideoToolbox hands it over.
#[derive(Debug, PartialEq, Eq)]
pub struct RawSample {
    /// The attachment that marks a frame as no sync frame, where it is there.
    pub not_sync: Option<bool>,
    pub parameter_sets: ParameterSets,
    pub data: SampleData,
}

/// A frame is a keyframe unless it is marked as no sync frame.
pub fn is_keyframe(not_sync: Option<bool>) -> (keyframe: bool)
    ensures
        keyframe == (not_sync != Some(true)),
{
    match not_sync {
        Some(marked) => !marked,
        None => true,
    }
}

/// The contents of each of `sets`.
pub open spec fn contents(sets: Seq<Vec<u8>>) -> Seq<Seq<u8>> {
    sets.map_values(|set: Vec<u8>| set@)
}

/// The bytes before the frame's own NAL units: the parameter sets, on a
/// keyframe.
pub open spec fn sample_head(sample: RawSample) -> Result<Seq<u8>, SampleError> {
    if sample.not_sync == Some(true) {
        Ok(Seq::empty())
    } else {
        match sample.parameter_sets {
            ParameterSets::NoFormat => Err(SampleError::NoFormatDescription),
            ParameterSets::NoCount { status } => Err(SampleError::ParameterSetCount { status }),
            ParameterSets::Unread { index, status } => Err(
                SampleError::ParameterSet { index, status },
            ),
            ParameterSets::Read(sets) => Ok(annexb(contents(sets@))),
        }
    }
}

/// The byte stream of a sample: the parameter sets on a keyframe, then the
/// frame's own NAL units.
pub open spec fn sample_bytes(sample: RawSample) -> Result<Seq<u8>, SampleError> {
    match sample_head(sample) {
        Err(e) => Err(e),
        Ok(head) => match sample.data {
            SampleData::NoBuffer => Err(SampleError::NoDataBuffer),
            SampleData::NoPointer { status } => Err(SampleError::DataPointer { status }),
            SampleData::NoCopy { status } => Err(SampleError::CopyData { status }),
            SampleData::Read(avcc) => Ok(head + annexb(nal_units(avcc@))),
        },
    }
}

/// `result` holds `bytes` and the keyframe flag of `sample`, or the same error.
pub open spec fn is_result_of(
    result: Result<(Vec<u8>, bool), SampleError>,
    sample: RawSample,
) -> bool {
    match (result, sample_bytes(sample)) {
        (Ok(r), Ok(bytes)) => r.0@ == bytes && r.1 == (sample.not_sync != Some(true)),
        (Err(a), Err(b)) => a == b,
        _ => false,
    }
}

/// Append each of `sets` to `out`, behind a start code.
fn append_sets(sets: &Vec<Vec<u8>>, out: &mut Vec<u8>)
    ensures
        final(out)@ == old(out)@ + annexb(contents(sets@)),
{
    let ghost before = out@;
    let mut i: usize = 0;
    assert(contents(sets@).take(0) =~= Seq::<Seq<u8>>::empty());
    assert(before + annexb(contents(sets@).take(0)) =~= before);
    while i < sets.len()
        invariant
            i <= sets@.len(),
            out@ == before + annexb(contents(sets@).take(i as int)),
        decreases sets@.len() - i,
    {
        push_unit(out, sets[i].as_slice());
        proof {
            let next = contents(sets@).take(i + 1);
            assert(next.drop_last() =~= contents(sets@).take(i as int));
            assert(next.last() == sets@[i as int]@);
            assert(out@ =~= before + annexb(next));
        }
        i += 1;
    }
    assert(contents(sets@).take(i as int) =~= contents(sets@));
}

/// Turn a compressed sample into a byte stream, with the parameter sets in
/// front on keyframes, and tell whether it is one.
pub fn sample_to_annexb(sample: RawSample) -> (result: Result<(Vec<u8>, bool), SampleError>)
    ensures
        is_result_of(result, sample),
{
    let keyframe: bool = is_keyframe(sample.not_sync);
    let mut out: Vec<u8> = Vec::new();
    if keyframe {
        match &sample.parameter_sets {
            ParameterSets::NoFormat => return Err(SampleError::NoFormatDescription),
            ParameterSets::NoCount { status } => return Err(
                SampleError::ParameterSetCount { status: *status },
            ),
            ParameterSets::Unread { index, status } => return Err(
                SampleError::ParameterSet { index: *index, status: *status },
            ),
            ParameterSets::Read(sets) => {
                append_sets(sets, &mut out);
                assert(out@ =~= annexb(contents(sets@)));
            },
        }
    }
    match &sample.data {
        SampleData::NoBuffer => Err(SampleError::NoDataBuffer),
        SampleData::NoPointer { status } => Err(SampleError::DataPointer { status: *status }),
        SampleData::NoCopy { status } => Err(SampleError::CopyData { status: *status }),
        SampleData::Read(avcc) => {
            append_annexb(avcc.as_slice(), &mut out);
            Ok((out, keyframe))
        },
    }
}

/// What the output callback makes of what VideoToolbox hands it.
pub fn callback_result(status: i32, dropped: bool, sample: Option<RawSample>) -> (result: Result<
    (Vec<u8>, bool),
    SampleError,
>)
    ensures
        match sample {
            Some(raw) if status == 0 && !dropped => is_result_of(result, raw),
            _ => result == Err::<(Vec<u8>, bool), SampleError>(
                SampleError::NotEncoded { status, dropped },
            ),
        },
{
    match sample {
        Some(raw) => if status == 0 && !dropped {
            sample_to_annexb(raw)
        } else {
            Err(SampleError::NotEncoded { status, dropped })
        },
        None => Err(SampleError::NotEncoded { status, dropped }),
    }
}

/// The byte stream of a keyframe is that of its parameter sets followed by the
/// frame's own units: a decoder can start there.
pub proof fn law_keyframe_carries_its_parameter_sets(
    sets: Vec<Vec<u8>>,
    avcc: Vec<u8>,
    not_sync: Option<bool>,
)
    requires
        not_sync != Some(true),
    ensures
        sample_bytes(
            (RawSample {
                not_sync,
                parameter_sets: ParameterSets::Read(sets),
                data: SampleData::Read(avcc),
            }),
        ) == Ok::<Seq<u8>, SampleError>(annexb(contents(sets@) + nal_units(avcc@))),
{
    lemma_annexb_concat(contents(sets@), nal_units(avcc@));
}

/// What a compression session is made for.
#[derive(Debug, Clone, Copy, PartialEq, Eq, Structural)]
pub struct SessionSettings {
    pub width: u32,
    pub height: u32,
    pub bitrate_bps: u32,
    /// The longest run of frames without a keyframe: a ceiling only, since
    /// keyframes are asked for frame by frame.
    pub keyframe_ceiling: i32,
}

/// A call on the way to a session that is ready.
#[derive(Debug, Clone, Copy, PartialEq, Eq, Structural)]
pub enum SetupCall {
    Create { width: i32, height: i32 },
    SetRealTime(bool),
    SetAllowFrameReordering(bool),
    SetConstrainedBaselineProfile,
    /// Set the plain profile after the constrained one was refused with
    /// `constrained`.
    SetBaselineProfile { constrained: i32 },
    SetAverageBitRate(i32),
    SetMaxKeyFrameInterval(i32),
    Prepare,
}

/// Why a session could not be made.
#[derive(Debug, Clone, Copy, PartialEq, Eq, Structural)]
pub enum SetupError {
    Create { status: i32 },
    SetBool { status: i32 },
    Profile { constrained: i32, baseline: i32 },
    SetNumber { status: i32 },
    Prepare { status: i32 },
}

/// What follows a call of the setup.
#[derive(Debug, Clone, Copy, PartialEq, Eq, Structural)]
pub enum SetupStep {
    Call(SetupCall),
    Ready,
    Failed(SetupError),
}

impl SessionSettings {
    /// What follows `call`, which ended with `status`; `missing` tells that no
    /// session came out of it although one was due.
    pub open spec fn step(self, call: SetupCall, status: i32, missing: bool) -> SetupStep {
        match call {
            SetupCall::Create { .. } => if status != 0 || missing {
                SetupStep::Failed(SetupError::Create { status })
            } else {
                SetupStep::Call(SetupCall::SetRealTime(true))
            },
            SetupCall::SetRealTime(_) => if status != 0 {
                SetupStep::Failed(SetupError::SetBool { status })
            } else {
                SetupStep::Call(SetupCall::SetAllowFrameReordering(false))
            },
            SetupCall::SetAllowFrameReordering(_) => if status != 0 {
                SetupStep::Failed(SetupError::SetBool { status })
            } else {
                SetupStep::Call(SetupCall::SetConstrainedBaselineProfile)
            },
            SetupCall::SetConstrainedBaselineProfile => if status != 0 {
                SetupStep::Call(SetupCall::SetBaselineProfile { constrained: status })
            } else {
                SetupStep::Call(SetupCall::SetAverageBitRate(self.bitrate_bps as i32))
            },
            SetupCall::SetBaselineProfile { constrained } => if status != 0 {
                SetupStep::Failed(SetupError::Profile { constrained, baseline: status })
            } else {
                SetupStep::Call(SetupCall::SetAverageBitRate(self.bitrate_bps as i32))
            },
            SetupCall::SetAverageBitRate(_) => if status != 0 {
                SetupStep::Failed(SetupError::SetNumber { status })
            } else {
                SetupStep::Call(SetupCall::SetMaxKeyFrameInterval(self.keyframe_ceiling))
            },
            SetupCall::SetMaxKeyFrameInterval(_) => if status != 0 {
                SetupStep::Failed(SetupError::SetNumber { status })
            } else {
                SetupStep::Call(SetupCall::Prepare)
            },
            SetupCall::Prepare => if status != 0 {
                SetupStep::Failed(SetupError::Prepare { status })
            } else {
                SetupStep::Ready
            },
        }
    }

    /// The call that makes the session.
    pub fn first_call(&self) -> (call: SetupCall)
        ensures
            call == (SetupCall::Create { width: self.width as i32, height: self.height as i32 }),
    {
        SetupCall::Create {
            width: #[verifier::truncate]
            (self.width as i32),
            height: #[verifier::truncate]
            (self.height as i32),
        }
    }

    /// Decide what follows `call`, which ended with `status`; `missing` tells
    /// that no session came out of it although one was due.
    pub fn after_call(&self, call: SetupCall, status: i32, missing: bool) -> (step: SetupStep)
        ensures
            step == self.step(call, status, missing),
    {
        match call {
            SetupCall::Create { .. } => {
                if status != 0 || missing {
                    return SetupStep::Failed(SetupError::Create { status });
                }
                // encode as frames come: decode order is display order
                SetupStep::Call(SetupCall::SetRealTime(true))
            },
            SetupCall::SetRealTime(_) => {
                if status != 0 {
                    return SetupStep::Failed(SetupError::SetBool { status });
                }
                SetupStep::Call(SetupCall::SetAllowFrameReordering(false))
            },
            SetupCall::SetAllowFrameReordering(_) => {
                if status != 0 {
                    return SetupStep::Failed(SetupError::SetBool { status });
                }
                SetupStep::Call(SetupCall::SetConstrainedBaselineProfile)
            },
            SetupCall::SetConstrainedBaselineProfile => {
                if status != 0 {
                    return SetupStep::Call(SetupCall::SetBaselineProfile { constrained: status });
                }
                self.bit_rate_step()
            },
            SetupCall::SetBaselineProfile { constrained } => {
                if status != 0 {
                    return SetupStep::Failed(SetupError::Profile { constrained, baseline: status });
                }
                self.bit_rate_step()
            },
            SetupCall::SetAverageBitRate(_) => {
                if status != 0 {
                    return SetupStep::Failed(SetupError::SetNumber { status });
                }
                SetupStep::Call(SetupCall::SetMaxKeyFrameInterval(self.keyframe_ceiling))
            },
            SetupCall::SetMaxKeyFrameInterval(_) => {
                if status != 0 {
                    return SetupStep::Failed(SetupError::SetNumber { status });
                }
                SetupStep::Call(SetupCall::Prepare)
            },
            SetupCall::Prepare => {
                if status != 0 {
                    return SetupStep::Failed(SetupError::Prepare { status });
                }
                SetupStep::Ready
            },
        }
    }

    fn bit_rate_step(&self) -> (step: SetupStep)
        ensures
            step == SetupStep::Call(SetupCall::SetAverageBitRate(self.bitrate_bps as i32)),
    {
        SetupStep::Call(
            SetupCall::SetAverageBitRate(
                #[verifier::truncate]
                (self.bitrate_bps as i32),
            ),
        )
    }

    /// The step after `calls` calls that all succeeded.
    pub open spec fn step_after(self, calls: nat) -> SetupStep
        decreases calls,
    {
        if calls == 0 {
            SetupStep::Call(
                SetupCall::Create { width: self.width as i32, height: self.height as i32 },
            )
        } else {
            match self.step_after((calls - 1) as nat) {
                SetupStep::Call(call) => self.step(call, 0, false),
                other => other,
            }
        }
    }
}

/// Where every call succeeds, seven of them make a session ready: it is created
/// at its size, told to encode as frames come and in their order, given its
/// profile, its bit rate and its ceiling, and prepared.
pub proof fn law_setup_configures_the_session(settings: SessionSettings)
    ensures
        settings.step_after(0) == SetupStep::Call(
            SetupCall::Create { width: settings.width as i32, height: settings.height as i32 },
        ),
        settings.step_after(1) == SetupStep::Call(SetupCall::SetRealTime(true)),
        settings.step_after(2) == SetupStep::Call(SetupCall::SetAllowFrameReordering(false)),
        settings.step_after(3) == SetupStep::Call(SetupCall::SetConstrainedBaselineProfile),
        settings.step_after(4) == SetupStep::Call(
            SetupCall::SetAverageBitRate(settings.bitrate_bps as i32),
        ),
        settings.step_after(5) == SetupStep::Call(
            SetupCall::SetMaxKeyFrameInterval(settings.keyframe_ceiling),
        ),
        settings.step_after(6) == SetupStep::Call(SetupCall::Prepare),
        settings.step_after(7) == SetupStep::Ready,
{
    reveal_with_fuel(SessionSettings::step_after, 8);
}

/// A call that fails ends the setup, but for one: a refused constrained profile
/// is followed by the plain one.
pub proof fn law_setup_stops_at_a_failure(
    settings: SessionSettings,
    call: SetupCall,
    status: i32,
    missing: bool,
)
    requires
        status != 0,
    ensures
        settings.step(call, status, missing) is Failed <==> call
            != SetupCall::SetConstrainedBaselineProfile,
{
}

/// Why a frame was not encoded.
#[derive(Debug, Clone, Copy, PartialEq, Eq, Structural)]
pub enum VideoToolboxError {
    /// A new session could not be made.
    Session(SetupError),
    /// The frame holds fewer bytes than its rows need.
    FrameTooSmall { len: usize, needed: usize },
    /// The pixels could not be wrapped.
    PixelBuffer { status: i32 },
    /// The frame was not taken.
    EncodeFrame { status: i32 },
    /// The frame could not be flushed.
    CompleteFrames { status: i32 },
    /// No result will come any more.
    ChannelClosed,
    /// The result could not be used.
    Sample(SampleError),
}

/// What the encoder needs to know of a frame.
#[derive(Debug, Clone, Copy, PartialEq, Eq, Structural)]
pub struct FrameShape {
    pub width: u32,
    pub height: u32,
    pub stride: usize,
    /// The number of bytes that the frame holds.
    pub len: usize,
}

impl FrameShape {
    /// The number of bytes that the rows need.
    pub open spec fn needed(self) -> int {
        self.stride * self.height
    }
}

/// How far the encoder has come with a frame.
#[derive(Debug, Clone, Copy, PartialEq, Eq, Structural)]
pub enum Phase {
    /// There is no frame in the encoder.
    Idle,
    /// The session is being made anew for a frame.
    Opening(FrameShape),
    /// The pixels are being wrapped.
    Wrapping { force: bool },
    /// The frame is being handed over.
    Submitting { pts: i64 },
    /// The frame is being flushed.
    Completing,
    /// The result is awaited.
    Receiving,
}

/// What happens to a frame in the encoder.
#[derive(Debug, PartialEq, Eq)]
pub enum FrameEvent {
    /// It comes in.
    Arrived { shape: FrameShape, force_idr: bool },
    /// The session was made anew, or could not be.
    SessionOpened(Result<(), SetupError>),
    /// Its pixels were wrapped; `missing` tells that nothing came out of it.
    PixelsWrapped { status: i32, missing: bool },
    /// It was handed over.
    Submitted { status: i32 },
    /// It was flushed.
    Completed { status: i32 },
    /// Its result came, or never will.
    Received(Option<Result<(Vec<u8>, bool), SampleError>>),
}

/// What is to be done for a frame.
#[derive(Debug, PartialEq, Eq)]
pub enum FrameAction {
    /// Tear the session down and make a new one.
    OpenSession(SessionSettings),
    /// Wrap the pixels.
    WrapPixels,
    /// Hand the frame over, as the one number `pts` of `timescale` per second,
    /// and ask for a keyframe where `force` says so.
    Submit { pts: i64, timescale: i32, force: bool },
    /// Flush the frames up to the one number `pts`.
    Complete { pts: i64 },
    /// Wait for the result.
    Receive,
    /// The frame is encoded.
    Done(EncodedSample),
    /// The frame failed. Where `drain` says so, a result may have come all the
    /// same and is thrown away, so that the next frame does not take it for its
    /// own.
    Fail { error: VideoToolboxError, drain: bool },
}

/// The state of the hardware encoder.
#[derive(Debug, Clone, Copy, PartialEq, Eq, Structural)]
pub struct VideoToolboxEncoder {
    pub width: u32,
    pub height: u32,
    pub bitrate_bps: u32,
    /// Frames per second, as a whole number.
    pub timescale: i32,
    pub keyframe_ceiling: i32,
    pub frame_dur: Duration,
    /// The number of the next frame: VideoToolbox wants them to increase.
    pub frame_count: i64,
    /// The next frame is to go to a new session.
    pub needs_reopen: bool,
    pub phase: Phase,
}

impl VideoToolboxEncoder {
    /// The encoder of a session that was just made.
    pub fn new(
        width: u32,
        height: u32,
        bitrate_bps: u32,
        timescale: i32,
        keyframe_ceiling: i32,
        frame_dur: Duration,
    ) -> (e: VideoToolboxEncoder)
        ensures
            e == (VideoToolboxEncoder {
                width,
                height,
                bitrate_bps,
                timescale,
                keyframe_ceiling,
                frame_dur,
                frame_count: 0,
                needs_reopen: false,
                phase: Phase::Idle,
            }),
    {
        VideoToolboxEncoder {
            width,
            height,
            bitrate_bps,
            timescale,
            keyframe_ceiling,
            frame_dur,
            frame_count: 0,
            needs_reopen: false,
            phase: Phase::Idle,
        }
    }

    /// What a session is made for.
    pub fn settings(&self) -> (s: SessionSettings)
        ensures
            s == (SessionSettings {
                width: self.width,
                height: self.height,
                bitrate_bps: self.bitrate_bps,
                keyframe_ceiling: self.keyframe_ceiling,
            }),
    {
        SessionSettings {
            width: self.width,
            height: self.height,
            bitrate_bps: self.bitrate_bps,
            keyframe_ceiling: self.keyframe_ceiling,
        }
    }

    /// `event` is one that the encoder waits for.
    pub open spec fn awaits(self, event: FrameEvent) -> bool {
        match self.phase {
            Phase::Idle => event is Arrived,
            Phase::Opening(_) => event is SessionOpened,
            Phase::Wrapping { .. } => event is PixelsWrapped && self.frame_count < i64::MAX,
            Phase::Submitting { .. } => event is Submitted,
            Phase::Completing => event is Completed,
            Phase::Receiving => event is Received,
        }
    }

    /// The encoder without a frame, and the failure of the one it had.
    pub open spec fn failed(self, error: VideoToolboxError, drain: bool) -> (
        VideoToolboxEncoder,
        FrameAction,
    ) {
        (
            VideoToolboxEncoder { phase: Phase::Idle, ..self },
            FrameAction::Fail { error, drain },
        )
    }

    /// A frame goes on to be wrapped, unless it is too small.
    pub open spec fn taken_on(self, shape: FrameShape, force: bool) -> (
        VideoToolboxEncoder,
        FrameAction,
    ) {
        if shape.len < shape.needed() {
            self.failed(
                VideoToolboxError::FrameTooSmall {
                    len: shape.len,
                    needed: if shape.needed() <= usize::MAX {
                        shape.needed() as usize
                    } else {
                        usize::MAX
                    },
                },
                false,
            )
        } else {
            (
                VideoToolboxEncoder { phase: Phase::Wrapping { force }, ..self },
                FrameAction::WrapPixels,
            )
        }
    }

    /// The encoder after `event`, and what is to be done next.
    pub open spec fn step(self, event: FrameEvent) -> (VideoToolboxEncoder, FrameAction) {
        match (self.phase, event) {
            (Phase::Idle, FrameEvent::Arrived { shape, force_idr }) => if self.needs_reopen {
                let resized = VideoToolboxEncoder {
                    width: shape.width,
                    height: shape.height,
                    phase: Phase::Opening(shape),
                    ..self
                };
                (
                    resized,
                    FrameAction::OpenSession(
                        SessionSettings {
                            width: shape.width,
                            height: shape.height,
                            bitrate_bps: self.bitrate_bps,
                            keyframe_ceiling: self.keyframe_ceiling,
                        },
                    ),
                )
            } else {
                self.taken_on(shape, force_idr)
            },
            (Phase::Opening(shape), FrameEvent::SessionOpened(opened)) => match opened {
                Err(e) => self.failed(VideoToolboxError::Session(e), false),
                Ok(_) => VideoToolboxEncoder {
                    frame_count: 0,
                    needs_reopen: false,
                    ..self
                }.taken_on(shape, true),
            },
            (
                Phase::Wrapping { force },
                FrameEvent::PixelsWrapped { status, missing },
            ) => if status != 0 || missing {
                self.failed(VideoToolboxError::PixelBuffer { status }, false)
            } else {
                (
                    VideoToolboxEncoder {
                        frame_count: (self.frame_count + 1) as i64,
                        phase: Phase::Submitting { pts: self.frame_count },
                        ..self
                    },
                    FrameAction::Submit { pts: self.frame_count, timescale: self.timescale, force },
                )
            },
            (Phase::Submitting { pts }, FrameEvent::Submitted { status }) => if status != 0 {
                self.failed(VideoToolboxError::EncodeFrame { status }, true)
            } else {
                (
                    VideoToolboxEncoder { phase: Phase::Completing, ..self },
                    FrameAction::Complete { pts },
                )
            },
            (Phase::Completing, FrameEvent::Completed { status }) => if status != 0 {
                self.failed(VideoToolboxError::CompleteFrames { status }, true)
            } else {
                (VideoToolboxEncoder { phase: Phase::Receiving, ..self }, FrameAction::Receive)
            },
            (Phase::Receiving, FrameEvent::Received(result)) => match result {
                None => self.failed(VideoToolboxError::ChannelClosed, false),
                Some(Err(e)) => self.failed(VideoToolboxError::Sample(e), false),
                Some(Ok((data, keyframe))) => (
                    VideoToolboxEncoder { phase: Phase::Idle, ..self },
                    FrameAction::Done(EncodedSample { data, duration: self.frame_dur, keyframe }),
                ),
            },
            // nothing else is awaited
            _ => (self, FrameAction::Receive),
        }
    }

    fn fail(&mut self, error: VideoToolboxError, drain: bool) -> (action: FrameAction)
        ensures
            (*final(self), action) == old(self).failed(error, drain),
    {
        self.phase = Phase::Idle;
        FrameAction::Fail { error, drain }
    }

    fn take_on(&mut self, shape: FrameShape, force: bool) -> (action: FrameAction)
        ensures
            (*final(self), action) == old(self).taken_on(shape, force),
    {
        // the rows are read from the frame's own memory: a frame that holds
        // less than it claims must not get there
        proof {
            assert(0 <= shape.stride * shape.height <= usize::MAX * u32::MAX) by (nonlinear_arith)
                requires
                    0 <= shape.stride <= usize::MAX,
                    0 <= shape.height <= u32::MAX,
            ;
            assert(usize::MAX * u32::MAX <= u64::MAX * u32::MAX) by (nonlinear_arith)
                requires
                    usize::MAX <= u64::MAX,
            ;
        }
        let needed: u128 = shape.stride as u128 * shape.height as u128;
        if (shape.len as u128) < needed {
            let capped: usize = if needed <= usize::MAX as u128 {
                needed as usize
            } else {
                usize::MAX
            };
            return self.fail(
                VideoToolboxError::FrameTooSmall { len: shape.len, needed: capped },
                false,
            );
        }
        self.phase = Phase::Wrapping { force };
        FrameAction::WrapPixels
    }

    /// Take in `event` and decide what to do next for the frame.
    pub fn on_event(&mut self, event: FrameEvent) -> (action: FrameAction)
        requires
            old(self).awaits(event),
        ensures
            (*final(self), action) == old(self).step(event),
    {
        match (self.phase, event) {
            (Phase::Idle, FrameEvent::Arrived { shape, force_idr }) => {
                if self.needs_reopen {
                    // a session is bound to the size it was made for, so the
                    // new one takes the size of the frame at hand
                    self.width = shape.width;
                    self.height = shape.height;
                    self.phase = Phase::Opening(shape);
                    FrameAction::OpenSession(self.settings())
                } else {
                    self.take_on(shape, force_idr)
                }
            },
            (Phase::Opening(shape), FrameEvent::SessionOpened(opened)) => match opened {
                Err(e) => self.fail(VideoToolboxError::Session(e), false),
                Ok(_) => {
                    self.frame_count = 0;
                    self.needs_reopen = false;
                    // a fresh session must open on a keyframe
                    self.take_on(shape, true)
                },
            },
            (Phase::Wrapping { force }, FrameEvent::PixelsWrapped { status, missing }) => {
                if status != 0 || missing {
                    return self.fail(VideoToolboxError::PixelBuffer { status }, false);
                }
                let pts: i64 = self.frame_count;
                self.frame_count = pts + 1;
                self.phase = Phase::Submitting { pts };
                FrameAction::Submit { pts, timescale: self.timescale, force }
            },
            (Phase::Submitting { pts }, FrameEvent::Submitted { status }) => {
                if status != 0 {
                    return self.fail(VideoToolboxError::EncodeFrame { status }, true);
                }
                self.phase = Phase::Completing;
                FrameAction::Complete { pts }
            },
            (Phase::Completing, FrameEvent::Completed { status }) => {
                if status != 0 {
                    return self.fail(VideoToolboxError::CompleteFrames { status }, true);
                }
                self.phase = Phase::Receiving;
                FrameAction::Receive
            },
            (Phase::Receiving, FrameEvent::Received(result)) => match result {
                None => self.fail(VideoToolboxError::ChannelClosed, false),
                Some(Err(e)) => self.fail(VideoToolboxError::Sample(e), false),
                Some(Ok((data, keyframe))) => {
                    self.phase = Phase::Idle;
                    FrameAction::Done(EncodedSample { data, duration: self.frame_dur, keyframe })
                },
            },
            // nothing else is awaited
            _ => FrameAction::Receive,
        }
    }

    /// The bit rate to ask the session for, when the target is to be
    /// `bitrate_bps`: none where it is that already.
    pub fn bitrate_change(&self, bitrate_bps: u32) -> (change: Option<i32>)
        ensures
            change == if bitrate_bps == self.bitrate_bps {
                None
            } else {
                Some(bitrate_bps as i32)
            },
    {
        if bitrate_bps == self.bitrate_bps {
            None
        } else {
            Some(
                #[verifier::truncate]
                (bitrate_bps as i32),
            )
        }
    }

    /// The session was asked for `bitrate_bps`: where it refused, the target
    /// stays as it was.
    pub fn bitrate_changed(&mut self, bitrate_bps: u32, status: i32)
        ensures
            *final(self) == (VideoToolboxEncoder {
                bitrate_bps: if status == 0 {
                    bitrate_bps
                } else {
                    old(self).bitrate_bps
                },
                ..*old(self)
            }),
    {
        if status == 0 {
            self.bitrate_bps = bitrate_bps;
        }
    }

    /// Have the next frame go to a new session.
    pub fn reset(&mut self)
        ensures
            *final(self) == (VideoToolboxEncoder { needs_reopen: true, ..*old(self) }),
    {
        self.needs_reopen = true;
    }
}

/// After a reset, a frame that is taken at all goes to a session of the frame's
/// own size, as its first one, and as a keyframe, whatever was asked for.
pub proof fn law_reset_reopens_at_the_frames_size(
    encoder: VideoToolboxEncoder,
    shape: FrameShape,
    force_idr: bool,
)
    requires
        encoder.phase is Idle,
        encoder.needs_reopen,
        shape.needed() <= shape.len,
    ensures
        ({
            let arrived = encoder.step(FrameEvent::Arrived { shape, force_idr });
            let opened = arrived.0.step(FrameEvent::SessionOpened(Ok(())));
            let wrapped = opened.0.step(FrameEvent::PixelsWrapped { status: 0, missing: false });
            &&& arrived.1 matches FrameAction::OpenSession(settings) && settings.width
                == shape.width && settings.height == shape.height && settings.bitrate_bps
                == encoder.bitrate_bps
            &&& opened.1 is WrapPixels
            &&& wrapped.1 == (FrameAction::Submit {
                pts: 0,
                timescale: encoder.timescale,
                force: true,
            })
            &&& !wrapped.0.needs_reopen
        }),
{
}

/// A new session that could not be made stays due: the next frame tries again.
pub proof fn law_failed_reopen_stays_due(
    encoder: VideoToolboxEncoder,
    shape: FrameShape,
    force_idr: bool,
    error: SetupError,
)
    requires
        encoder.phase is Idle,
        encoder.needs_reopen,
    ensures
        ({
            let arrived = encoder.step(FrameEvent::Arrived { shape, force_idr }).0;
            let failed = arrived.step(FrameEvent::SessionOpened(Err(error)));
            &&& failed.0.needs_reopen
            &&& failed.0.phase is Idle
            &&& failed.1 == (FrameAction::Fail {
                error: VideoToolboxError::Session(error),
                drain: false,
            })
        }),
{
}

/// The numbers of the frames that go to one session increase: each frame that
/// is handed over takes the next number, and nothing but a new session sets
/// them back.
pub proof fn law_frame_numbers_increase(encoder: VideoToolboxEncoder, event: FrameEvent)
    requires
        encoder.awaits(event),
    ensures
        encoder.step(event).1 matches FrameAction::Submit { pts, .. } ==> pts
            == encoder.frame_count && encoder.step(event).0.frame_count == pts + 1,
        !(encoder.step(event).1 is Submit) && encoder.step(event).0.frame_count
            != encoder.frame_count ==> (event matches FrameEvent::SessionOpened(opened)
            && opened is Ok),
{
}

/// A result is waited for only once per frame, and a frame that fails after it
/// was handed over has its result thrown away: no frame is given the result of
/// another.
pub proof fn law_no_result_is_left_behind(encoder: VideoToolboxEncoder, event: FrameEvent)
    requires
        encoder.awaits(event),
    ensures
        encoder.step(event).1 matches FrameAction::Fail { drain, .. } ==> drain == (
        encoder.phase is Submitting || encoder.phase is Completing),
        encoder.step(event).1 is Receive <==> event == (FrameEvent::Completed { status: 0 }),
        encoder.step(event).1 is Fail || encoder.step(event).1 is Done <==> encoder.step(
            event,
        ).0.phase is Idle,
{
}

/// A byte stream holds every unit that is put into it, whole and in its order,
/// whatever its length: the stream of a list with one more unit is the stream of
/// the list, the bytes 0, 0, 0, 1 and the unit.
pub proof fn law_stream_holds_every_unit(units: Seq<Seq<u8>>, unit: Seq<u8>)
    ensures
        annexb(Seq::<Seq<u8>>::empty()) == Seq::<u8>::empty(),
        annexb(units.push(unit)) == annexb(units) + seq![0u8, 0u8, 0u8, 1u8] + unit,
{
    assert(units.push(unit).drop_last() =~= units);
}

/// The lengths of all units together.
pub open spec fn total_len(units: Seq<Seq<u8>>) -> nat
    decreases units.len(),
{
    if units.len() == 0 {
        0
    } else {
        units[0].len() + total_len(units.drop_first())
    }
}

/// Nothing but the units and four bytes for each of them is in a byte stream,
/// and each unit is found behind the units before it.
pub proof fn law_units_are_found_in_the_stream(units: Seq<Seq<u8>>, i: int)
    ensures
        annexb(units).len() == 4 * units.len() + total_len(units),
        0 <= i < units.len() ==> ({
            let start = 4 * i + total_len(units.take(i));
            &&& start + 4 + units[i].len() <= annexb(units).len()
            &&& annexb(units).subrange(start, start + 4) == seq![0u8, 0u8, 0u8, 1u8]
            &&& annexb(units).subrange(start + 4, start + 4 + units[i].len()) == units[i]
        }),
    decreases units.len(),
{
    if units.len() > 0 {
        let before = units.drop_last();
        law_units_are_found_in_the_stream(before, i);
        lemma_total_len_push(before, units.last());
        assert(before.push(units.last()) =~= units);
        law_stream_holds_every_unit(before, units.last());
        if 0 <= i < units.len() {
            let start = 4 * i + total_len(units.take(i));
            if i < before.len() {
                assert(units.take(i) =~= before.take(i));
                assert(annexb(units).subrange(start, start + 4) =~= annexb(before).subrange(
                    start,
                    start + 4,
                ));
                assert(annexb(units).subrange(start + 4, start + 4 + units[i].len()) =~= annexb(
                    before,
                ).subrange(start + 4, start + 4 + units[i].len()));
            } else {
                assert(units.take(i) =~= before);
                assert(annexb(units).subrange(start, start + 4) =~= seq![0u8, 0u8, 0u8, 1u8]);
                assert(annexb(units).subrange(start + 4, start + 4 + units[i].len())
                    =~= units[i]);
            }
        }
    }
}

proof fn lemma_total_len_push(units: Seq<Seq<u8>>, unit: Seq<u8>)
    ensures
        total_len(units.push(unit)) == total_len(units) + unit.len(),
    decreases units.len(),
{
    if units.len() == 0 {
        assert(units.push(unit).drop_first() =~= units);
    } else {
        assert(units.push(unit).drop_first() =~= units.drop_first().push(unit));
        lemma_total_len_push(units.drop_first(), unit);
    }
}

/// The first four bytes of a buffer give the length of its first unit, the most
/// significant byte first, and the units behind it are found likewise. A buffer
/// that ends before its first unit does, or whose first unit has no bytes, has
/// no units.
pub proof fn law_units_are_read_by_their_length(a: u8, b: u8, c: u8, d: u8, rest: Seq<u8>)
    ensures
        ({
            let len = 16777216 * a + 65536 * b + 256 * c + d;
            let buffer = seq![a, b, c, d] + rest;
            if 0 < len <= rest.len() {
                nal_units(buffer) == seq![rest.take(len)] + nal_units(rest.skip(len))
            } else {
                nal_units(buffer).len() == 0
            }
        }),
{
    let len = 16777216 * a + 65536 * b + 256 * c + d;
    let buffer = seq![a, b, c, d] + rest;
    assert(buffer[0] == a && buffer[1] == b && buffer[2] == c && buffer[3] == d);
    if 0 < len <= rest.len() {
        assert(buffer.subrange(4, 4 + len) =~= rest.take(len));
        assert(buffer.skip(4 + len) =~= rest.skip(len));
    }
}

/// A buffer that is too short for a length has no units.
pub proof fn law_no_units_without_a_length(buffer: Seq<u8>)
    requires
        buffer.len() < 4,
    ensures
        nal_units(buffer).len() == 0,
{
}

/// A frame that is no keyframe becomes its own units and nothing else, whatever
/// is known of its parameter sets.
pub proof fn law_other_frames_are_their_own_units(parameter_sets: ParameterSets, avcc: Vec<u8>)
    ensures
        sample_bytes(
            (RawSample { not_sync: Some(true), parameter_sets, data: SampleData::Read(avcc) }),
        ) == Ok::<Seq<u8>, SampleError>(annexb(nal_units(avcc@))),
{
    assert(Seq::<u8>::empty() + annexb(nal_units(avcc@)) =~= annexb(nal_units(avcc@)));
}

/// The parameter sets of a keyframe are put into the stream as they are, one
/// after the other.
pub proof fn law_parameter_sets_are_kept(sets: Seq<Vec<u8>>)
    ensures
        contents(sets).len() == sets.len(),
        forall|i: int| 0 <= i < sets.len() ==> #[trigger] contents(sets)[i] == sets[i]@,
{
}

/// What cannot be read of a sample is reported as what it is, with the status
/// that came with it; a sample of which everything can be read does not fail.
pub proof fn law_unreadable_samples_are_reported(sample: RawSample)
    ensures
        ({
            let keyframe = sample.not_sync != Some(true);
            let sets_read = !keyframe || sample.parameter_sets is Read;
            &&& sample_bytes(sample) is Ok <==> sets_read && sample.data is Read
            &&& keyframe && sample.parameter_sets is NoFormat ==> sample_bytes(sample) == Err::<
                Seq<u8>,
                SampleError,
            >(SampleError::NoFormatDescription)
            &&& sample.parameter_sets matches ParameterSets::NoCount { status } ==> keyframe
                ==> sample_bytes(sample) == Err::<Seq<u8>, SampleError>(
                SampleError::ParameterSetCount { status },
            )
            &&& sample.parameter_sets matches ParameterSets::Unread { index, status } ==> keyframe
                ==> sample_bytes(sample) == Err::<Seq<u8>, SampleError>(
                SampleError::ParameterSet { index, status },
            )
            &&& sets_read && sample.data is NoBuffer ==> sample_bytes(sample) == Err::<
                Seq<u8>,
                SampleError,
            >(SampleError::NoDataBuffer)
            &&& sample.data matches SampleData::NoPointer { status } ==> sets_read ==> sample_bytes(
                sample,
            ) == Err::<Seq<u8>, SampleError>(SampleError::DataPointer { status })
            &&& sample.data matches SampleData::NoCopy { status } ==> sets_read ==> sample_bytes(
                sample,
            ) == Err::<Seq<u8>, SampleError>(SampleError::CopyData { status })
        }),
{
}

/// A result of a sample is its bytes, with a mark that tells exactly whether it
/// is a keyframe, or the error that it comes to.
pub proof fn law_results_are_those_of_the_sample(
    result: Result<(Vec<u8>, bool), SampleError>,
    sample: RawSample,
)
    requires
        is_result_of(result, sample),
    ensures
        match result {
            Ok((data, keyframe)) => {
                &&& sample_bytes(sample) == Ok::<Seq<u8>, SampleError>(data@)
                &&& keyframe <==> sample.not_sync != Some(true)
            },
            Err(e) => sample_bytes(sample) == Err::<Seq<u8>, SampleError>(e),
        },
{
}

/// A call of the setup that fails is reported with its status; where only the
/// constrained profile is refused, the setup goes on with the plain one as it
/// would have gone on with the other.
pub proof fn law_setup_failures_are_reported(settings: SessionSettings, w: i32, h: i32, status: i32)
    requires
        status != 0,
    ensures
        settings.step(SetupCall::Create { width: w, height: h }, status, false)
            == SetupStep::Failed(SetupError::Create { status }),
        settings.step(SetupCall::Create { width: w, height: h }, 0, true) == SetupStep::Failed(
            SetupError::Create { status: 0 },
        ),
        forall|on: bool|
            #![trigger settings.step(SetupCall::SetRealTime(on), status, false)]
            settings.step(SetupCall::SetRealTime(on), status, false) == SetupStep::Failed(
                SetupError::SetBool { status },
            ),
        forall|on: bool|
            #![trigger settings.step(SetupCall::SetAllowFrameReordering(on), status, false)]
            settings.step(SetupCall::SetAllowFrameReordering(on), status, false)
                == SetupStep::Failed(SetupError::SetBool { status }),
        settings.step(SetupCall::SetConstrainedBaselineProfile, status, false) == SetupStep::Call(
            SetupCall::SetBaselineProfile { constrained: status },
        ),
        settings.step(SetupCall::SetBaselineProfile { constrained: w }, status, false)
            == SetupStep::Failed(SetupError::Profile { constrained: w, baseline: status }),
        settings.step(SetupCall::SetBaselineProfile { constrained: w }, 0, false)
            == SetupStep::Call(SetupCall::SetAverageBitRate(settings.bitrate_bps as i32)),
        settings.step(SetupCall::SetAverageBitRate(w), status, false) == SetupStep::Failed(
            SetupError::SetNumber { status },
        ),
        settings.step(SetupCall::SetMaxKeyFrameInterval(w), status, false) == SetupStep::Failed(
            SetupError::SetNumber { status },
        ),
        settings.step(SetupCall::Prepare, status, false) == SetupStep::Failed(
            SetupError::Prepare { status },
        ),
{
}

/// A frame that holds its rows is handed over under the next number, as a
/// keyframe exactly where one is asked for, flushed under that number, and comes
/// out as the bytes and the mark that VideoToolbox gave for it, for the duration
/// of a frame. Nothing else changes.
pub proof fn law_a_whole_frame_is_encoded(
    encoder: VideoToolboxEncoder,
    shape: FrameShape,
    force_idr: bool,
    data: Vec<u8>,
    keyframe: bool,
)
    requires
        encoder.phase is Idle,
        !encoder.needs_reopen,
        encoder.frame_count < i64::MAX,
        shape.stride * shape.height <= shape.len,
    ensures
        ({
            let n = encoder.frame_count;
            let arrived = encoder.step(FrameEvent::Arrived { shape, force_idr });
            let wrapped = arrived.0.step(FrameEvent::PixelsWrapped { status: 0, missing: false });
            let submitted = wrapped.0.step(FrameEvent::Submitted { status: 0 });
            let completed = submitted.0.step(FrameEvent::Completed { status: 0 });
            let received = completed.0.step(FrameEvent::Received(Some(Ok((data, keyframe)))));
            &&& arrived.1 is WrapPixels
            &&& wrapped.1 == (FrameAction::Submit {
                pts: n,
                timescale: encoder.timescale,
                force: force_idr,
            })
            &&& submitted.1 == (FrameAction::Complete { pts: n })
            &&& completed.1 is Receive
            &&& received.1 == FrameAction::Done(
                EncodedSample { data, duration: encoder.frame_dur, keyframe },
            )
            &&& received.0 == (VideoToolboxEncoder { frame_count: (n + 1) as i64, ..encoder })
        }),
{
}

/// A frame that holds less than its rows need goes no further, and leaves the
/// encoder as it was.
pub proof fn law_a_short_frame_is_refused(
    encoder: VideoToolboxEncoder,
    shape: FrameShape,
    force_idr: bool,
)
    requires
        encoder.phase is Idle,
        !encoder.needs_reopen,
        shape.stride * shape.height > shape.len,
    ensures
        encoder.step(FrameEvent::Arrived { shape, force_idr }).0 == encoder,
        encoder.step(FrameEvent::Arrived { shape, force_idr }).1 matches FrameAction::Fail {
            error: VideoToolboxError::FrameTooSmall { len, needed },
            ..
        } && len == shape.len && (needed == shape.stride * shape.height || (needed == usize::MAX
            && shape.stride * shape.height > usize::MAX)),
{
}

/// A frame that fails on its way is reported with the status that it failed
/// with, and leaves the encoder free for the next one, with everything but the
/// frame numbers as it was.
pub proof fn law_frame_failures_are_reported(
    encoder: VideoToolboxEncoder,
    status: i32,
    sample_error: SampleError,
)
    requires
        status != 0,
    ensures
        ({
            let idle = VideoToolboxEncoder { phase: Phase::Idle, ..encoder };
            &&& encoder.phase is Wrapping ==> {
                &&& encoder.step(FrameEvent::PixelsWrapped { status, missing: false }) == (
                    idle,
                    FrameAction::Fail {
                        error: VideoToolboxError::PixelBuffer { status },
                        drain: false,
                    },
                )
                &&& encoder.step(FrameEvent::PixelsWrapped { status: 0, missing: true }) == (
                    idle,
                    FrameAction::Fail {
                        error: VideoToolboxError::PixelBuffer { status: 0 },
                        drain: false,
                    },
                )
            }
            &&& encoder.phase is Submitting ==> encoder.step(FrameEvent::Submitted { status }) == (
                idle,
                FrameAction::Fail { error: VideoToolboxError::EncodeFrame { status }, drain: true },
            )
            &&& encoder.phase is Completing ==> encoder.step(FrameEvent::Completed { status }) == (
                idle,
                FrameAction::Fail {
                    error: VideoToolboxError::CompleteFrames { status },
                    drain: true,
                },
            )
            &&& encoder.phase is Receiving ==> {
                &&& encoder.step(FrameEvent::Received(None)) == (
                    idle,
                    FrameAction::Fail { error: VideoToolboxError::ChannelClosed, drain: false },
                )
                &&& encoder.step(FrameEvent::Received(Some(Err(sample_error)))) == (
                    idle,
                    FrameAction::Fail {
                        error: VideoToolboxError::Sample(sample_error),
                        drain: false,
                    },
                )
            }
        }),
{
}

/// A new session goes on with everything of the old one but the size, which is
/// that of the frame, and the frame numbers, which start over.
pub proof fn law_a_new_session_keeps_the_settings(
    encoder: VideoToolboxEncoder,
    shape: FrameShape,
    force_idr: bool,
)
    requires
        encoder.phase is Idle,
        encoder.needs_reopen,
    ensures
        ({
            let arrived = encoder.step(FrameEvent::Arrived { shape, force_idr });
            let opened = arrived.0.step(FrameEvent::SessionOpened(Ok(())));
            &&& arrived.1 == FrameAction::OpenSession(
                SessionSettings {
                    width: shape.width,
                    height: shape.height,
                    bitrate_bps: encoder.bitrate_bps,
                    keyframe_ceiling: encoder.keyframe_ceiling,
                },
            )
            &&& opened.0 == (VideoToolboxEncoder {
                width: shape.width,
                height: shape.height,
                frame_count: 0,
                needs_reopen: false,
                phase: opened.0.phase,
                ..encoder
            })
            &&& opened.1 is WrapPixels <==> shape.stride * shape.height <= shape.len
        }),
{
}

} // verus!
