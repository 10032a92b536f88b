use rd_agent::time::{Duration, Instant};
use rd_agent::video::pipeline::{
    sample_duration, should_force_keyframe, FrameArrival, Phase, PipelineAction, PipelineCmd,
    PipelineEvent, VideoPipeline,
};

fn at(millis: u64) -> Instant {
    Instant { nanos: millis as u128 * 1_000_000 }
}

#[test]
fn forces_when_interval_elapsed() {
    assert!(should_force_keyframe(Duration::from_secs(4), Duration::from_secs(4), false));
    assert!(should_force_keyframe(Duration::from_secs(5), Duration::from_secs(4), false));
}

#[test]
fn no_force_before_interval() {
    assert!(!should_force_keyframe(Duration::from_secs(1), Duration::from_secs(4), false));
}

#[test]
fn request_overrides_interval() {
    assert!(should_force_keyframe(Duration::from_millis(1), Duration::from_secs(4), true));
}

#[test]
fn first_frame_uses_fallback() {
    let t = at(77);
    assert_eq!(sample_duration(None, t, Duration::from_millis(33)), Duration::from_millis(33));
}

#[test]
fn normal_gap_passes_through() {
    let t0 = at(77);
    let d = sample_duration(
        Some(t0),
        t0.after(Duration::from_millis(50)),
        Duration::from_millis(33),
    );
    assert_eq!(d, Duration::from_millis(50));
}

#[test]
fn long_idle_gap_is_clamped_high() {
    let t0 = at(77);
    let d = sample_duration(Some(t0), t0.after(Duration::from_secs(5)), Duration::from_millis(33));
    assert_eq!(d, Duration::from_millis(1000));
}

#[test]
fn zero_gap_is_clamped_low() {
    let t0 = at(77);
    assert_eq!(sample_duration(Some(t0), t0, Duration::from_millis(33)), Duration::from_millis(1));
}

#[test]
fn a_clock_that_ran_backwards_counts_as_no_gap() {
    assert_eq!(
        sample_duration(Some(at(90)), at(80), Duration::from_millis(33)),
        Duration::from_millis(1)
    );
}

fn pipeline() -> VideoPipeline {
    VideoPipeline::start(true, 640, 480, Duration::from_secs(4), at(0)).unwrap()
}

/// Feed a pipeline at its head one frame that comes at `now`; gives whether it
/// became a keyframe, and the duration of its sample.
fn one_frame(p: &mut VideoPipeline, now: Instant) -> (bool, Duration) {
    assert_eq!(
        p.on_event(PipelineEvent::StopChecked { stop: false }),
        PipelineAction::NextCommand
    );
    assert_eq!(
        p.on_event(PipelineEvent::Command(None)),
        PipelineAction::WaitForFrame { millis: 200 }
    );
    assert_eq!(
        p.on_event(PipelineEvent::Frame(FrameArrival::Arrived)),
        PipelineAction::TryNewer
    );
    assert_eq!(p.on_event(PipelineEvent::Newer { replaced: true }), PipelineAction::TryNewer);
    assert_eq!(
        p.on_event(PipelineEvent::Newer { replaced: false }),
        PipelineAction::Resize { width: p.dst_w, height: p.dst_h }
    );
    let force = match p.on_event(PipelineEvent::Sized { now }) {
        PipelineAction::Encode { force_idr } => force_idr,
        other => panic!("unexpected {other:?}"),
    };
    match p.on_event(PipelineEvent::Encoded { duration: Some(Duration::from_millis(33)), now }) {
        PipelineAction::Write { duration } => (force, duration),
        other => panic!("unexpected {other:?}"),
    }
}

fn command(p: &mut VideoPipeline, cmd: PipelineCmd) -> PipelineAction {
    assert_eq!(
        p.on_event(PipelineEvent::StopChecked { stop: false }),
        PipelineAction::NextCommand
    );
    p.on_event(PipelineEvent::Command(Some(cmd)))
}

/// Leave the commands for the head of the loop.
fn to_head(p: &mut VideoPipeline) {
    let _ = p.on_event(PipelineEvent::Command(None));
    assert_eq!(
        p.on_event(PipelineEvent::Frame(FrameArrival::TimedOut)),
        PipelineAction::CheckStop
    );
}

#[test]
fn there_is_no_pipeline_without_capture() {
    assert_eq!(VideoPipeline::start(false, 2, 2, Duration::from_secs(4), at(0)), None);
}

#[test]
fn the_first_frame_and_those_after_the_interval_are_keyframes() {
    let mut p = pipeline();
    assert_eq!(one_frame(&mut p, at(10)), (true, Duration::from_millis(33)));
    assert_eq!(one_frame(&mut p, at(60)), (false, Duration::from_millis(50)));
    assert_eq!(one_frame(&mut p, at(4009)), (false, Duration::from_millis(1000)));
    assert_eq!(one_frame(&mut p, at(4010)), (true, Duration::from_millis(1)));
    assert_eq!(one_frame(&mut p, at(4030)), (false, Duration::from_millis(20)));
}

#[test]
fn the_durations_add_up_to_the_time_that_passed() {
    let mut p = pipeline();
    let _ = one_frame(&mut p, at(10));
    let mut covered: u128 = 0;
    for now in [43, 80, 81, 1081, 1500] {
        covered += one_frame(&mut p, at(now)).1.nanos;
    }
    assert_eq!(covered, Duration::from_millis(1490).nanos);
}

#[test]
fn a_requested_keyframe_is_the_next_frame() {
    let mut p = pipeline();
    let _ = one_frame(&mut p, at(10));
    assert_eq!(command(&mut p, PipelineCmd::ForceKeyframe), PipelineAction::NextCommand);
    to_head(&mut p);
    assert!(one_frame(&mut p, at(20)).0);
    assert!(!one_frame(&mut p, at(30)).0);
}

#[test]
fn bit_rates_are_handed_to_the_encoder_in_order() {
    let mut p = pipeline();
    assert_eq!(
        command(&mut p, PipelineCmd::Bitrate(1_500_000)),
        PipelineAction::SetBitrate(1_500_000)
    );
    assert_eq!(p.on_event(PipelineEvent::Applied), PipelineAction::NextCommand);
    assert_eq!(
        p.on_event(PipelineEvent::Command(Some(PipelineCmd::Bitrate(6_000_000)))),
        PipelineAction::SetBitrate(6_000_000)
    );
}

#[test]
fn a_resolution_switch_restarts_capture_and_resets_the_encoder() {
    let mut p = pipeline();
    let _ = one_frame(&mut p, at(10));
    assert_eq!(
        command(&mut p, PipelineCmd::Resolution(4, 4)),
        PipelineAction::StartSource { width: 4, height: 4 }
    );
    assert_eq!(
        p.on_event(PipelineEvent::SourceStarted { started: true }),
        PipelineAction::ResetEncoder
    );
    assert_eq!(p.on_event(PipelineEvent::Applied), PipelineAction::NextCommand);
    assert_eq!((p.dst_w, p.dst_h), (4, 4));
    to_head(&mut p);
    assert!(one_frame(&mut p, at(20)).0);
}

#[test]
fn the_same_resolution_changes_nothing() {
    let mut p = pipeline();
    let _ = one_frame(&mut p, at(10));
    assert_eq!(command(&mut p, PipelineCmd::Resolution(640, 480)), PipelineAction::NextCommand);
    to_head(&mut p);
    assert!(!one_frame(&mut p, at(20)).0);
}

#[test]
fn a_failed_switch_restores_the_old_size() {
    let mut p = pipeline();
    let _ = one_frame(&mut p, at(10));
    let _ = command(&mut p, PipelineCmd::Resolution(4, 4));
    assert_eq!(
        p.on_event(PipelineEvent::SourceStarted { started: false }),
        PipelineAction::StartSource { width: 640, height: 480 }
    );
    assert_eq!(
        p.on_event(PipelineEvent::SourceStarted { started: true }),
        PipelineAction::ResetEncoder
    );
    assert_eq!((p.dst_w, p.dst_h), (640, 480));
    let _ = p.on_event(PipelineEvent::Applied);
    to_head(&mut p);
    assert!(one_frame(&mut p, at(20)).0);
}

#[test]
fn a_failed_restore_stops_the_video() {
    let mut p = pipeline();
    let _ = command(&mut p, PipelineCmd::Resolution(4, 4));
    let _ = p.on_event(PipelineEvent::SourceStarted { started: false });
    assert_eq!(
        p.on_event(PipelineEvent::SourceStarted { started: false }),
        PipelineAction::Stop
    );
    assert_eq!(p.phase, Phase::Stopped);
}

#[test]
fn the_loop_ends_when_told_to_or_when_frames_end() {
    let mut p = pipeline();
    assert_eq!(p.on_event(PipelineEvent::StopChecked { stop: true }), PipelineAction::Stop);
    let mut p = pipeline();
    let _ = p.on_event(PipelineEvent::StopChecked { stop: false });
    let _ = p.on_event(PipelineEvent::Command(None));
    assert_eq!(
        p.on_event(PipelineEvent::Frame(FrameArrival::Disconnected)),
        PipelineAction::Stop
    );
}

#[test]
fn a_frame_that_cannot_be_encoded_is_skipped() {
    let mut p = pipeline();
    let _ = p.on_event(PipelineEvent::StopChecked { stop: false });
    let _ = p.on_event(PipelineEvent::Command(None));
    let _ = p.on_event(PipelineEvent::Frame(FrameArrival::Arrived));
    let _ = p.on_event(PipelineEvent::Newer { replaced: false });
    let _ = p.on_event(PipelineEvent::Sized { now: at(5) });
    assert_eq!(
        p.on_event(PipelineEvent::Encoded { duration: None, now: at(6) }),
        PipelineAction::CheckStop
    );
    assert_eq!(p.last_emit, None);
    // the request is spent, though
    assert!(!one_frame(&mut p, at(10)).0);
}
