use rd_agent::time::Duration;
use rd_agent::video::videotoolbox_encoder::{
    append_annexb, callback_result, is_keyframe, sample_to_annexb, FrameAction, FrameEvent,
    FrameShape, ParameterSets, Phase, RawSample, SampleData, SampleError, SessionSettings,
    SetupCall, SetupError, SetupStep, VideoToolboxEncoder, VideoToolboxError,
};
use rd_agent::video::EncodedSample;

fn annexb(avcc: &[u8]) -> Vec<u8> {
    let mut out = vec![9];
    append_annexb(avcc, &mut out);
    out
}

#[test]
fn length_prefixes_become_start_codes() {
    assert_eq!(annexb(&[]), vec![9]);
    assert_eq!(
        annexb(&[0, 0, 0, 2, 65, 1, 0, 0, 0, 1, 66]),
        vec![9, 0, 0, 0, 1, 65, 1, 0, 0, 0, 1, 66]
    );
    let mut long = vec![0, 0, 1, 4];
    long.extend(std::iter::repeat(7).take(260));
    assert_eq!(annexb(&long).len(), 1 + 4 + 260);
}

#[test]
fn broken_length_prefixes_end_the_list() {
    // an empty unit
    assert_eq!(annexb(&[0, 0, 0, 1, 5, 0, 0, 0, 0, 0, 0, 0, 1, 6]), vec![9, 0, 0, 0, 1, 5]);
    // a unit longer than what is left
    assert_eq!(annexb(&[0, 0, 0, 1, 5, 0, 0, 0, 2, 6]), vec![9, 0, 0, 0, 1, 5]);
    assert_eq!(annexb(&[255, 255, 255, 255, 1]), vec![9]);
    // too few bytes for a length
    assert_eq!(annexb(&[0, 0, 0, 1, 5, 0, 0, 0]), vec![9, 0, 0, 0, 1, 5]);
}

fn sample(not_sync: Option<bool>) -> RawSample {
    RawSample {
        not_sync,
        parameter_sets: ParameterSets::Read(vec![vec![103, 1], vec![104]]),
        data: SampleData::Read(vec![0, 0, 0, 1, 101]),
    }
}

#[test]
fn keyframes_carry_their_parameter_sets() {
    let keyframe = vec![0, 0, 0, 1, 103, 1, 0, 0, 0, 1, 104, 0, 0, 0, 1, 101];
    assert_eq!(sample_to_annexb(sample(None)), Ok((keyframe.clone(), true)));
    assert_eq!(sample_to_annexb(sample(Some(false))), Ok((keyframe, true)));
    assert_eq!(sample_to_annexb(sample(Some(true))), Ok((vec![0, 0, 0, 1, 101], false)));
    assert!(is_keyframe(None) && is_keyframe(Some(false)) && !is_keyframe(Some(true)));
}

#[test]
fn samples_fail_in_order() {
    let with_sets = |parameter_sets| RawSample { parameter_sets, ..sample(None) };
    assert_eq!(
        sample_to_annexb(with_sets(ParameterSets::NoFormat)),
        Err(SampleError::NoFormatDescription)
    );
    assert_eq!(
        sample_to_annexb(with_sets(ParameterSets::NoCount { status: -5 })),
        Err(SampleError::ParameterSetCount { status: -5 })
    );
    assert_eq!(
        sample_to_annexb(with_sets(ParameterSets::Unread { index: 1, status: -6 })),
        Err(SampleError::ParameterSet { index: 1, status: -6 })
    );
    let with_data = |data| RawSample { data, ..sample(None) };
    assert_eq!(sample_to_annexb(with_data(SampleData::NoBuffer)), Err(SampleError::NoDataBuffer));
    assert_eq!(
        sample_to_annexb(with_data(SampleData::NoPointer { status: 3 })),
        Err(SampleError::DataPointer { status: 3 })
    );
    assert_eq!(
        sample_to_annexb(with_data(SampleData::NoCopy { status: 4 })),
        Err(SampleError::CopyData { status: 4 })
    );
    let both = RawSample {
        not_sync: None,
        parameter_sets: ParameterSets::NoFormat,
        data: SampleData::NoBuffer,
    };
    assert_eq!(sample_to_annexb(both), Err(SampleError::NoFormatDescription));
    // other frames need no format description
    let delta = RawSample {
        not_sync: Some(true),
        parameter_sets: ParameterSets::NoFormat,
        data: SampleData::Read(vec![]),
    };
    assert_eq!(sample_to_annexb(delta), Ok((vec![], false)));
}

#[test]
fn the_callback_reports_failures() {
    assert_eq!(
        callback_result(-1, false, Some(sample(None))),
        Err(SampleError::NotEncoded { status: -1, dropped: false })
    );
    assert_eq!(
        callback_result(0, true, Some(sample(None))),
        Err(SampleError::NotEncoded { status: 0, dropped: true })
    );
    assert_eq!(
        callback_result(0, false, None),
        Err(SampleError::NotEncoded { status: 0, dropped: false })
    );
    assert!(callback_result(0, false, Some(sample(None))).is_ok());
}

fn settings() -> SessionSettings {
    SessionSettings { width: 320, height: 240, bitrate_bps: 1_000_000, keyframe_ceiling: 240 }
}

#[test]
fn a_session_is_configured_step_by_step() {
    let s = settings();
    let mut call = s.first_call();
    let mut calls = vec![call];
    loop {
        match s.after_call(call, 0, false) {
            SetupStep::Call(next) => {
                call = next;
                calls.push(next);
            }
            SetupStep::Ready => break,
            SetupStep::Failed(e) => panic!("unexpected {e:?}"),
        }
    }
    assert_eq!(
        calls,
        vec![
            SetupCall::Create { width: 320, height: 240 },
            SetupCall::SetRealTime(true),
            SetupCall::SetAllowFrameReordering(false),
            SetupCall::SetConstrainedBaselineProfile,
            SetupCall::SetAverageBitRate(1_000_000),
            SetupCall::SetMaxKeyFrameInterval(240),
            SetupCall::Prepare,
        ]
    );
}

#[test]
fn a_setup_stops_where_a_call_fails() {
    let s = settings();
    let failed = |call, status, missing| match s.after_call(call, status, missing) {
        SetupStep::Failed(e) => e,
        other => panic!("unexpected {other:?}"),
    };
    assert_eq!(failed(s.first_call(), -9, false), SetupError::Create { status: -9 });
    assert_eq!(failed(s.first_call(), 0, true), SetupError::Create { status: 0 });
    assert_eq!(failed(SetupCall::SetRealTime(true), 1, false), SetupError::SetBool { status: 1 });
    assert_eq!(
        failed(SetupCall::SetAllowFrameReordering(false), 2, false),
        SetupError::SetBool { status: 2 }
    );
    assert_eq!(
        s.after_call(SetupCall::SetConstrainedBaselineProfile, 3, false),
        SetupStep::Call(SetupCall::SetBaselineProfile { constrained: 3 })
    );
    assert_eq!(
        failed(SetupCall::SetBaselineProfile { constrained: 3 }, 4, false),
        SetupError::Profile { constrained: 3, baseline: 4 }
    );
    assert_eq!(
        s.after_call(SetupCall::SetBaselineProfile { constrained: 3 }, 0, false),
        SetupStep::Call(SetupCall::SetAverageBitRate(1_000_000))
    );
    assert_eq!(
        failed(SetupCall::SetAverageBitRate(1), 5, false),
        SetupError::SetNumber { status: 5 }
    );
    assert_eq!(
        failed(SetupCall::SetMaxKeyFrameInterval(1), 6, false),
        SetupError::SetNumber { status: 6 }
    );
    assert_eq!(failed(SetupCall::Prepare, 7, false), SetupError::Prepare { status: 7 });
}

fn encoder() -> VideoToolboxEncoder {
    VideoToolboxEncoder::new(320, 240, 1_000_000, 30, 240, Duration::from_millis(33))
}

fn shape(width: u32, height: u32) -> FrameShape {
    let stride = width as usize * 4;
    FrameShape { width, height, stride, len: stride * height as usize }
}

fn arrive(e: &mut VideoToolboxEncoder, width: u32, height: u32, force_idr: bool) -> FrameAction {
    e.on_event(FrameEvent::Arrived { shape: shape(width, height), force_idr })
}

const WRAPPED: FrameEvent = FrameEvent::PixelsWrapped { status: 0, missing: false };

#[test]
fn a_frame_goes_through_and_is_numbered() {
    let mut e = encoder();
    for pts in 0..3i64 {
        assert_eq!(arrive(&mut e, 320, 240, pts == 0), FrameAction::WrapPixels);
        assert_eq!(
            e.on_event(WRAPPED),
            FrameAction::Submit { pts, timescale: 30, force: pts == 0 }
        );
        assert_eq!(
            e.on_event(FrameEvent::Submitted { status: 0 }),
            FrameAction::Complete { pts }
        );
        assert_eq!(e.on_event(FrameEvent::Completed { status: 0 }), FrameAction::Receive);
        assert_eq!(
            e.on_event(FrameEvent::Received(Some(Ok((vec![1, 2], pts == 0))))),
            FrameAction::Done(EncodedSample {
                data: vec![1, 2],
                duration: Duration::from_millis(33),
                keyframe: pts == 0,
            })
        );
        assert_eq!(e.phase, Phase::Idle);
    }
}

#[test]
fn a_reset_opens_a_session_at_the_next_frames_size() {
    let mut e = encoder();
    let _ = arrive(&mut e, 320, 240, true);
    let _ = e.on_event(WRAPPED);
    let _ = e.on_event(FrameEvent::Submitted { status: 0 });
    let _ = e.on_event(FrameEvent::Completed { status: 0 });
    let _ = e.on_event(FrameEvent::Received(Some(Ok((vec![1], true)))));
    e.reset();
    let wanted = SessionSettings { width: 640, height: 480, ..settings() };
    assert_eq!(arrive(&mut e, 640, 480, false), FrameAction::OpenSession(wanted));
    // one that cannot be made stays due
    assert_eq!(
        e.on_event(FrameEvent::SessionOpened(Err(SetupError::Create { status: -1 }))),
        FrameAction::Fail {
            error: VideoToolboxError::Session(SetupError::Create { status: -1 }),
            drain: false,
        }
    );
    assert_eq!(arrive(&mut e, 640, 480, false), FrameAction::OpenSession(wanted));
    assert_eq!(e.on_event(FrameEvent::SessionOpened(Ok(()))), FrameAction::WrapPixels);
    assert_eq!(
        e.on_event(WRAPPED),
        FrameAction::Submit { pts: 0, timescale: 30, force: true }
    );
}

#[test]
fn frames_fail_where_they_are() {
    let fail = |error, drain| FrameAction::Fail { error, drain };
    let mut e = encoder();
    let short = FrameShape { width: 2, height: 2, stride: 8, len: 15 };
    assert_eq!(
        e.on_event(FrameEvent::Arrived { shape: short, force_idr: false }),
        fail(VideoToolboxError::FrameTooSmall { len: 15, needed: 16 }, false)
    );
    let huge = FrameShape { width: 2, height: 2, stride: usize::MAX, len: 15 };
    assert_eq!(
        e.on_event(FrameEvent::Arrived { shape: huge, force_idr: false }),
        fail(VideoToolboxError::FrameTooSmall { len: 15, needed: usize::MAX }, false)
    );
    let _ = arrive(&mut e, 2, 2, false);
    assert_eq!(
        e.on_event(FrameEvent::PixelsWrapped { status: -2, missing: true }),
        fail(VideoToolboxError::PixelBuffer { status: -2 }, false)
    );
    assert_eq!(e.frame_count, 0);
    let _ = arrive(&mut e, 2, 2, false);
    let _ = e.on_event(WRAPPED);
    assert_eq!(
        e.on_event(FrameEvent::Submitted { status: -3 }),
        fail(VideoToolboxError::EncodeFrame { status: -3 }, true)
    );
    let _ = arrive(&mut e, 2, 2, false);
    assert_eq!(
        e.on_event(WRAPPED),
        FrameAction::Submit { pts: 1, timescale: 30, force: false }
    );
    let _ = e.on_event(FrameEvent::Submitted { status: 0 });
    assert_eq!(
        e.on_event(FrameEvent::Completed { status: -4 }),
        fail(VideoToolboxError::CompleteFrames { status: -4 }, true)
    );
    let mut receive = |result| {
        let _ = arrive(&mut e, 2, 2, false);
        let _ = e.on_event(WRAPPED);
        let _ = e.on_event(FrameEvent::Submitted { status: 0 });
        let _ = e.on_event(FrameEvent::Completed { status: 0 });
        e.on_event(FrameEvent::Received(result))
    };
    assert_eq!(receive(None), fail(VideoToolboxError::ChannelClosed, false));
    assert_eq!(
        receive(Some(Err(SampleError::NoDataBuffer))),
        fail(VideoToolboxError::Sample(SampleError::NoDataBuffer), false)
    );
}

#[test]
fn bit_rates_change_only_where_the_session_takes_them() {
    let mut e = encoder();
    assert_eq!(e.bitrate_change(1_000_000), None);
    assert_eq!(e.bitrate_change(2_000_000), Some(2_000_000));
    e.bitrate_changed(2_000_000, -1);
    assert_eq!(e.bitrate_bps, 1_000_000);
    e.bitrate_changed(2_000_000, 0);
    assert_eq!(e.bitrate_bps, 2_000_000);
    assert_eq!(e.settings().bitrate_bps, 2_000_000);
}
