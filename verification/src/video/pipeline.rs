//! Capture, resize, encode, send: the loop that turns screen frames into
//! samples, seen from what it decides. The program owns the capturer, the
//! encoder, the queues and the clock; it carries out each action and reports
//! what came of it.

use crate::time::{Duration, Instant};
use vstd::prelude::*;

verus! {

/// The shortest span that a sample covers, in nanoseconds.
pub const MIN_SAMPLE_NANOS: u128 = 1_000_000;

/// The longest span that a sample covers, in nanoseconds.
pub const MAX_SAMPLE_NANOS: u128 = 1_000_000_000;

/// How long the pipeline waits for a frame before it looks around, in
/// milliseconds.
pub const FRAME_WAIT_MILLIS: u64 = 200;

/// `nanos`, held between the shortest and the longest span of a sample.
pub open spec fn clamped(nanos: nat) -> nat {
    if nanos < MIN_SAMPLE_NANOS {
        MIN_SAMPLE_NANOS as nat
    } else if nanos > MAX_SAMPLE_NANOS {
        MAX_SAMPLE_NANOS as nat
    } else {
        nanos
    }
}

/// Wall-clock gap between successive emitted samples, so that the media clock
/// tracks real time: each sample moves that clock on by its duration. `prev` is
/// `None` for the first sample. The gap is clamped, so that a long idle time
/// cannot make the clock leap and a zero gap cannot stall it.
pub fn sample_duration(prev: Option<Instant>, now: Instant, fallback: Duration) -> (d: Duration)
    ensures
        match prev {
            None => d == fallback,
            Some(p) => d.nanos == clamped(now.since(p)),
        },
{
    match prev {
        None => fallback,
        Some(p) => {
            let gap: Duration = now.saturating_duration_since(p);
            if gap.nanos < MIN_SAMPLE_NANOS {
                Duration { nanos: MIN_SAMPLE_NANOS }
            } else if gap.nanos > MAX_SAMPLE_NANOS {
                Duration { nanos: MAX_SAMPLE_NANOS }
            } else {
                gap
            }
        },
    }
}

/// Force a keyframe when the interval has elapsed, or when one was requested
/// (by a resolution switch, or by a browser that lost track of the picture).
pub fn should_force_keyframe(since_last: Duration, interval: Duration, requested: bool) -> (force:
    bool)
    ensures
        force == (requested || since_last.nanos >= interval.nanos),
{
    requested || since_last.nanos >= interval.nanos
}

/// Commands that the pipeline applies between frames.
#[derive(Debug, Clone, Copy, PartialEq, Eq, Structural)]
pub enum PipelineCmd {
    Bitrate(u32),
    /// Switch capture to a new size: swap the capturer and reset the encoder,
    /// so that the stream opens again with parameter sets and a keyframe.
    Resolution(u32, u32),
    /// Emit a keyframe on the next frame.
    ForceKeyframe,
}

/// What the pipeline is waiting for.
#[derive(Debug, Clone, Copy, PartialEq, Eq, Structural)]
pub enum Phase {
    /// Whether it was told to stop.
    Head,
    /// The next command, if there is one.
    Commands,
    /// The encoder took a command.
    Applying,
    /// The capturer at a new size.
    Switching { width: u32, height: u32 },
    /// The capturer at the size it had.
    Restoring,
    /// A frame.
    Frame,
    /// A newer frame, if there is one.
    Newer,
    /// The frame at its target size.
    Sizing,
    /// The encoded frame.
    Encoding,
    /// Nothing: the pipeline has come to its end.
    Stopped,
}

/// What happens to the pipeline.
#[derive(Debug, Clone, Copy, PartialEq, Eq, Structural)]
pub enum PipelineEvent {
    StopChecked { stop: bool },
    /// The next command, or none where the queue is empty.
    Command(Option<PipelineCmd>),
    /// The encoder took a bit rate or a reset.
    Applied,
    /// A capturer was started, or could not be.
    SourceStarted { started: bool },
    /// A frame came, none came in time, or none will come any more.
    Frame(FrameArrival),
    /// Whether a newer frame took the place of the one at hand.
    Newer { replaced: bool },
    /// The frame at hand has its target size.
    Sized { now: Instant },
    /// The frame was encoded into a sample of this nominal duration, or could
    /// not be.
    Encoded { duration: Option<Duration>, now: Instant },
}

/// What a wait for a frame came to.
#[derive(Debug, Clone, Copy, PartialEq, Eq, Structural)]
pub enum FrameArrival {
    Arrived,
    TimedOut,
    Disconnected,
}

/// What the pipeline does next.
#[derive(Debug, Clone, Copy, PartialEq, Eq, Structural)]
pub enum PipelineAction {
    /// See whether the pipeline was told to stop.
    CheckStop,
    /// Take the next command from the queue.
    NextCommand,
    SetBitrate(u32),
    /// Let go of the capturer, with the frames it has queued, and start one at
    /// this size.
    StartSource { width: u32, height: u32 },
    ResetEncoder,
    /// Wait for a frame, this long at most.
    WaitForFrame { millis: u64 },
    /// See whether a newer frame is queued, and take it instead.
    TryNewer,
    /// Bring the frame at hand to this size.
    Resize { width: u32, height: u32 },
    /// Encode the frame at hand.
    Encode { force_idr: bool },
    /// Send the sample with this duration, then see whether to stop.
    Write { duration: Duration },
    /// Leave the loop.
    Stop,
}

/// The state of the loop. The first frame, every frame after the keyframe
/// interval has elapsed since the last keyframe, and the frame that follows a
/// request are keyframes.
#[derive(Debug, Clone, Copy, PartialEq, Eq, Structural)]
pub struct VideoPipeline {
    pub dst_w: u32,
    pub dst_h: u32,
    pub keyframe_interval: Duration,
    /// The next frame is to be a keyframe.
    pub force_next_idr: bool,
    pub last_keyframe: Instant,
    /// When the last sample was emitted.
    pub last_emit: Option<Instant>,
    pub phase: Phase,
}

impl VideoPipeline {
    /// The pipeline at the start of its loop. There is none where the capturer
    /// did not start.
    pub fn start(
        capturing: bool,
        dst_w: u32,
        dst_h: u32,
        keyframe_interval: Duration,
        now: Instant,
    ) -> (p: Option<VideoPipeline>)
        ensures
            p == if capturing {
                Some(
                    VideoPipeline {
                        dst_w,
                        dst_h,
                        keyframe_interval,
                        force_next_idr: true,
                        last_keyframe: now,
                        last_emit: None,
                        phase: Phase::Head,
                    },
                )
            } else {
                None
            },
    {
        if capturing {
            Some(
                VideoPipeline {
                    dst_w,
                    dst_h,
                    keyframe_interval,
                    force_next_idr: true,
                    last_keyframe: now,
                    last_emit: None,
                    phase: Phase::Head,
                },
            )
        } else {
            None
        }
    }

    /// `event` is one that the pipeline waits for.
    pub open spec fn awaits(self, event: PipelineEvent) -> bool {
        match self.phase {
            Phase::Head => event is StopChecked,
            Phase::Commands => event is Command,
            Phase::Applying => event is Applied,
            Phase::Switching { .. } => event is SourceStarted,
            Phase::Restoring => event is SourceStarted,
            Phase::Frame => event is Frame,
            Phase::Newer => event is Newer,
            Phase::Sizing => event is Sized,
            Phase::Encoding => event is Encoded,
            Phase::Stopped => false,
        }
    }

    /// The pipeline with another phase.
    pub open spec fn at(self, phase: Phase) -> VideoPipeline {
        VideoPipeline { phase, ..self }
    }

    /// The pipeline after the command `cmd`, and what it does next.
    pub open spec fn command_step(self, cmd: PipelineCmd) -> (VideoPipeline, PipelineAction) {
        match cmd {
            PipelineCmd::Bitrate(bps) => (
                self.at(Phase::Applying),
                PipelineAction::SetBitrate(bps),
            ),
            PipelineCmd::ForceKeyframe => (
                VideoPipeline { force_next_idr: true, ..self },
                PipelineAction::NextCommand,
            ),
            PipelineCmd::Resolution(w, h) => if w == self.dst_w && h == self.dst_h {
                (self, PipelineAction::NextCommand)
            } else {
                (
                    self.at(Phase::Switching { width: w, height: h }),
                    PipelineAction::StartSource { width: w, height: h },
                )
            },
        }
    }

    /// The pipeline after `event`, and what it does next.
    pub open spec fn step(self, event: PipelineEvent) -> (VideoPipeline, PipelineAction) {
        match (self.phase, event) {
            (Phase::Head, PipelineEvent::StopChecked { stop }) => if stop {
                (self.at(Phase::Stopped), PipelineAction::Stop)
            } else {
                (self.at(Phase::Commands), PipelineAction::NextCommand)
            },
            (Phase::Commands, PipelineEvent::Command(next)) => match next {
                Some(cmd) => self.command_step(cmd),
                None => (
                    self.at(Phase::Frame),
                    PipelineAction::WaitForFrame { millis: FRAME_WAIT_MILLIS },
                ),
            },
            (Phase::Applying, PipelineEvent::Applied) => (
                self.at(Phase::Commands),
                PipelineAction::NextCommand,
            ),
            (
                Phase::Switching { width, height },
                PipelineEvent::SourceStarted { started },
            ) => if started {
                (
                    VideoPipeline {
                        dst_w: width,
                        dst_h: height,
                        force_next_idr: true,
                        phase: Phase::Applying,
                        ..self
                    },
                    PipelineAction::ResetEncoder,
                )
            } else {
                (
                    self.at(Phase::Restoring),
                    PipelineAction::StartSource { width: self.dst_w, height: self.dst_h },
                )
            },
            (Phase::Restoring, PipelineEvent::SourceStarted { started }) => if started {
                (
                    VideoPipeline { force_next_idr: true, phase: Phase::Applying, ..self },
                    PipelineAction::ResetEncoder,
                )
            } else {
                (self.at(Phase::Stopped), PipelineAction::Stop)
            },
            (Phase::Frame, PipelineEvent::Frame(arrival)) => match arrival {
                FrameArrival::Arrived => (self.at(Phase::Newer), PipelineAction::TryNewer),
                FrameArrival::TimedOut => (self.at(Phase::Head), PipelineAction::CheckStop),
                FrameArrival::Disconnected => (self.at(Phase::Stopped), PipelineAction::Stop),
            },
            (Phase::Newer, PipelineEvent::Newer { replaced }) => if replaced {
                (self, PipelineAction::TryNewer)
            } else {
                (
                    self.at(Phase::Sizing),
                    PipelineAction::Resize { width: self.dst_w, height: self.dst_h },
                )
            },
            (Phase::Sizing, PipelineEvent::Sized { now }) => {
                let force_idr = self.force_next_idr || now.since(self.last_keyframe)
                    >= self.keyframe_interval.nanos;
                (
                    VideoPipeline {
                        force_next_idr: false,
                        last_keyframe: if force_idr {
                            now
                        } else {
                            self.last_keyframe
                        },
                        phase: Phase::Encoding,
                        ..self
                    },
                    PipelineAction::Encode { force_idr },
                )
            },
            (Phase::Encoding, PipelineEvent::Encoded { duration, now }) => match duration {
                Some(nominal) => (
                    VideoPipeline { last_emit: Some(now), phase: Phase::Head, ..self },
                    PipelineAction::Write {
                        duration: match self.last_emit {
                            None => nominal,
                            Some(p) => Duration { nanos: clamped(now.since(p)) as u128 },
                        },
                    },
                ),
                None => (self.at(Phase::Head), PipelineAction::CheckStop),
            },
            // nothing else is awaited
            _ => (self, PipelineAction::Stop),
        }
    }

    fn on_command(&mut self, cmd: PipelineCmd) -> (action: PipelineAction)
        ensures
            (*final(self), action) == old(self).command_step(cmd),
    {
        match cmd {
            PipelineCmd::Bitrate(bps) => {
                self.phase = Phase::Applying;
                PipelineAction::SetBitrate(bps)
            },
            PipelineCmd::ForceKeyframe => {
                self.force_next_idr = true;
                PipelineAction::NextCommand
            },
            PipelineCmd::Resolution(w, h) => {
                // already capturing at this size: a restart would only stall
                // the video
                if w == self.dst_w && h == self.dst_h {
                    return PipelineAction::NextCommand;
                }
                self.phase = Phase::Switching { width: w, height: h };
                PipelineAction::StartSource { width: w, height: h }
            },
        }
    }

    fn on_sized(&mut self, now: Instant) -> (action: PipelineAction)
        requires
            old(self).phase is Sizing,
        ensures
            (*final(self), action) == old(self).step(PipelineEvent::Sized { now }),
    {
        let force_idr: bool = should_force_keyframe(
            now.saturating_duration_since(self.last_keyframe),
            self.keyframe_interval,
            self.force_next_idr,
        );
        self.force_next_idr = false;
        if force_idr {
            self.last_keyframe = now;
        }
        self.phase = Phase::Encoding;
        PipelineAction::Encode { force_idr }
    }

    /// Take in `event` and decide what to do next.
    pub fn on_event(&mut self, event: PipelineEvent) -> (action: PipelineAction)
        requires
            old(self).awaits(event),
        ensures
            (*final(self), action) == old(self).step(event),
    {
        match (self.phase, event) {
            (Phase::Head, PipelineEvent::StopChecked { stop }) => {
                if stop {
                    self.phase = Phase::Stopped;
                    PipelineAction::Stop
                } else {
                    self.phase = Phase::Commands;
                    PipelineAction::NextCommand
                }
            },
            (Phase::Commands, PipelineEvent::Command(next)) => match next {
                Some(cmd) => self.on_command(cmd),
                None => {
                    self.phase = Phase::Frame;
                    PipelineAction::WaitForFrame { millis: FRAME_WAIT_MILLIS }
                },
            },
            (Phase::Applying, PipelineEvent::Applied) => {
                self.phase = Phase::Commands;
                PipelineAction::NextCommand
            },
            (Phase::Switching { width, height }, PipelineEvent::SourceStarted { started }) => {
                if started {
                    self.dst_w = width;
                    self.dst_h = height;
                    self.force_next_idr = true;
                    self.phase = Phase::Applying;
                    PipelineAction::ResetEncoder
                } else {
                    self.phase = Phase::Restoring;
                    PipelineAction::StartSource { width: self.dst_w, height: self.dst_h }
                }
            },
            (Phase::Restoring, PipelineEvent::SourceStarted { started }) => {
                if started {
                    self.force_next_idr = true;
                    self.phase = Phase::Applying;
                    PipelineAction::ResetEncoder
                } else {
                    // no capturer left: the video freezes, but the session
                    // stays alive
                    self.phase = Phase::Stopped;
                    PipelineAction::Stop
                }
            },
            (Phase::Frame, PipelineEvent::Frame(arrival)) => match arrival {
                FrameArrival::Arrived => {
                    self.phase = Phase::Newer;
                    PipelineAction::TryNewer
                },
                FrameArrival::TimedOut => {
                    self.phase = Phase::Head;
                    PipelineAction::CheckStop
                },
                FrameArrival::Disconnected => {
                    self.phase = Phase::Stopped;
                    PipelineAction::Stop
                },
            },
            (Phase::Newer, PipelineEvent::Newer { replaced }) => {
                if replaced {
                    PipelineAction::TryNewer
                } else {
                    self.phase = Phase::Sizing;
                    PipelineAction::Resize { width: self.dst_w, height: self.dst_h }
                }
            },
            (Phase::Sizing, PipelineEvent::Sized { now }) => self.on_sized(now),
            (Phase::Encoding, PipelineEvent::Encoded { duration, now }) => {
                self.phase = Phase::Head;
                match duration {
                    Some(nominal) => {
                        let duration: Duration = sample_duration(self.last_emit, now, nominal);
                        self.last_emit = Some(now);
                        PipelineAction::Write { duration }
                    },
                    None => PipelineAction::CheckStop,
                }
            },
            // nothing else is awaited
            _ => PipelineAction::Stop,
        }
    }

    /// The pipeline after each of `events` in turn.
    pub open spec fn after(self, events: Seq<PipelineEvent>) -> VideoPipeline
        decreases events.len(),
    {
        if events.len() == 0 {
            self
        } else {
            self.after(events.drop_last()).step(events.last()).0
        }
    }

    /// The pipeline waits for each of `events` when it comes.
    pub open spec fn awaits_all(self, events: Seq<PipelineEvent>) -> bool
        decreases events.len(),
    {
        events.len() > 0 ==> {
            &&& self.awaits_all(events.drop_last())
            &&& self.after(events.drop_last()).awaits(events.last())
        }
    }

    /// When event number `i` of `events` brought a frame that became a keyframe,
    /// if it did.
    pub open spec fn keyframe_at(self, events: Seq<PipelineEvent>, i: int) -> Option<Instant> {
        match (events[i], self.after(events.take(i)).step(events[i]).1) {
            (
                PipelineEvent::Sized { now },
                PipelineAction::Encode { force_idr: true },
            ) => Some(now),
            _ => None,
        }
    }

    /// No frame of `events` from number `from` on became a keyframe.
    pub open spec fn no_keyframe(self, events: Seq<PipelineEvent>, from: int) -> bool {
        forall|j: int| from <= j < events.len() ==> #[trigger] self.keyframe_at(events, j) is None
    }

    /// The last keyframe of `events` came at `last`. Where there was none, the
    /// time of the one before them stands for it.
    pub open spec fn is_last_keyframe(self, events: Seq<PipelineEvent>, last: Instant) -> bool {
        if self.no_keyframe(events, 0) {
            last == self.last_keyframe
        } else {
            exists|i: int|
                0 <= i < events.len() && #[trigger] self.keyframe_at(events, i) == Some(last)
                    && self.no_keyframe(events, i + 1)
        }
    }

    /// The time that the samples sent on `events` cover, in nanoseconds.
    pub open spec fn media_time(self, events: Seq<PipelineEvent>) -> nat
        decreases events.len(),
    {
        if events.len() == 0 {
            0
        } else {
            self.media_time(events.drop_last()) + match self.after(events.drop_last()).step(
                events.last(),
            ).1 {
                PipelineAction::Write { duration } => duration.nanos as nat,
                _ => 0,
            }
        }
    }

    /// Each sample sent on `events` comes between a millisecond and a second
    /// after the one before it.
    pub open spec fn emits_steadily(self, events: Seq<PipelineEvent>) -> bool
        decreases events.len(),
    {
        events.len() > 0 ==> {
            &&& self.emits_steadily(events.drop_last())
            &&& match (events.last(), self.after(events.drop_last()).last_emit) {
                (
                    PipelineEvent::Encoded { duration: Some(_), now },
                    Some(before),
                ) => MIN_SAMPLE_NANOS <= now.nanos - before.nanos <= MAX_SAMPLE_NANOS,
                _ => true,
            }
        }
    }
}

/// `event` asks for a keyframe, or changes the source.
pub open spec fn is_request(event: PipelineEvent) -> bool {
    event == PipelineEvent::Command(Some(PipelineCmd::ForceKeyframe)) || event == (
    PipelineEvent::SourceStarted { started: true })
}

/// No frame of `events` from number `from` on reached the encoder.
pub open spec fn none_sized(events: Seq<PipelineEvent>, from: int) -> bool {
    forall|j: int| from <= j < events.len() ==> !(#[trigger] events[j] is Sized)
}

/// The frame after `events` is the first one, or one that a request since the
/// frame before it asks to be a keyframe.
pub open spec fn first_or_requested(events: Seq<PipelineEvent>) -> bool {
    none_sized(events, 0) || exists|i: int|
        0 <= i < events.len() && is_request(#[trigger] events[i]) && none_sized(events, i + 1)
}

/// A keyframe that is due stays due until a frame is encoded, and that frame is
/// then a keyframe. At its start a pipeline has one due, so its first frame is a
/// keyframe, whatever happens before it.
pub proof fn law_first_frame_is_a_keyframe(
    pipeline: VideoPipeline,
    events: Seq<PipelineEvent>,
    now: Instant,
)
    requires
        pipeline.force_next_idr,
        pipeline.awaits_all(events),
        forall|i: int| 0 <= i < events.len() ==> !(#[trigger] events[i] is Sized),
    ensures
        pipeline.after(events).force_next_idr,
        pipeline.after(events).phase is Sizing ==> pipeline.after(events).step(
            PipelineEvent::Sized { now },
        ).1 == (PipelineAction::Encode { force_idr: true }),
    decreases events.len(),
{
    if events.len() > 0 {
        let before = events.drop_last();
        assert forall|i: int| 0 <= i < before.len() implies !(#[trigger] before[i] is Sized) by {
            assert(before[i] == events[i]);
        }
        law_first_frame_is_a_keyframe(pipeline, before, now);
        assert(!(events[events.len() - 1] is Sized));
    }
}

/// Over a whole run, a frame is a keyframe exactly where it is the first one,
/// where a keyframe was requested or the source changed since the frame before
/// it, or where the keyframe interval has passed since the last keyframe.
pub proof fn law_keyframes_are_exactly_those_due(
    pipeline: VideoPipeline,
    events: Seq<PipelineEvent>,
    now: Instant,
)
    requires
        pipeline.force_next_idr,
        pipeline.awaits_all(events),
        pipeline.after(events).phase is Sizing,
    ensures
        pipeline.after(events).step(PipelineEvent::Sized { now }).1 == (PipelineAction::Encode {
            force_idr: first_or_requested(events) || exists|last: Instant|
                #[trigger] pipeline.is_last_keyframe(events, last) && now.since(last)
                    >= pipeline.keyframe_interval.nanos,
        }),
{
    let last = pipeline.after(events).last_keyframe;
    lemma_keyframes_due(pipeline, events);
    lemma_last_keyframe(pipeline, events);
    assert forall|other: Instant| #[trigger] pipeline.is_last_keyframe(events, other) implies other
        == last by {
        lemma_last_keyframe_unique(pipeline, events, last, other);
    }
    assert(pipeline.is_last_keyframe(events, last));
}

proof fn lemma_keyframes_due(pipeline: VideoPipeline, events: Seq<PipelineEvent>)
    requires
        pipeline.force_next_idr,
        pipeline.awaits_all(events),
    ensures
        pipeline.after(events).force_next_idr == first_or_requested(events),
        pipeline.after(events).keyframe_interval == pipeline.keyframe_interval,
    decreases events.len(),
{
    if events.len() > 0 {
        let before = events.drop_last();
        let last = events.len() - 1;
        lemma_keyframes_due(pipeline, before);
        assert forall|i: int| 0 <= i < last implies #[trigger] events[i] == before[i] by {}
        if is_request(events[last]) {
            assert(first_or_requested(events));
        } else if events[last] is Sized {
            assert(!first_or_requested(events));
        } else {
            if first_or_requested(before) {
                if exists|i: int|
                    0 <= i < before.len() && is_request(#[trigger] before[i]) && none_sized(
                        before,
                        i + 1,
                    ) {
                    let i = choose|i: int|
                        0 <= i < before.len() && is_request(#[trigger] before[i]) && none_sized(
                            before,
                            i + 1,
                        );
                    assert(is_request(events[i]) && none_sized(events, i + 1));
                } else {
                    assert(none_sized(events, 0));
                }
            }
            if first_or_requested(events) {
                if none_sized(events, 0) {
                    assert forall|j: int| 0 <= j < before.len() implies !(#[trigger] before[j]
                        is Sized) by {
                        assert(!(events[j] is Sized));
                    }
                } else {
                    let i = choose|i: int|
                        0 <= i < events.len() && is_request(#[trigger] events[i]) && none_sized(
                            events,
                            i + 1,
                        );
                    assert forall|j: int| i + 1 <= j < before.len() implies !(#[trigger] before[j]
                        is Sized) by {
                        assert(!(events[j] is Sized));
                    }
                    assert(is_request(before[i]) && none_sized(before, i + 1));
                }
            }
        }
    }
}

proof fn lemma_last_keyframe(pipeline: VideoPipeline, events: Seq<PipelineEvent>)
    requires
        pipeline.awaits_all(events),
    ensures
        pipeline.is_last_keyframe(events, pipeline.after(events).last_keyframe),
    decreases events.len(),
{
    if events.len() > 0 {
        let before = events.drop_last();
        let last = events.len() - 1;
        let then_last = pipeline.after(before).last_keyframe;
        lemma_last_keyframe(pipeline, before);
        assert(events.take(last) =~= before);
        assert forall|i: int| 0 <= i < last implies #[trigger] pipeline.keyframe_at(events, i)
            == pipeline.keyframe_at(before, i) by {
            assert(events.take(i) =~= before.take(i));
        }
        if pipeline.keyframe_at(events, last) is None {
            assert(pipeline.after(events).last_keyframe == then_last);
            if !pipeline.no_keyframe(before, 0) {
                let i = choose|i: int|
                    0 <= i < before.len() && #[trigger] pipeline.keyframe_at(before, i) == Some(
                        then_last,
                    ) && pipeline.no_keyframe(before, i + 1);
                assert(pipeline.keyframe_at(events, i) == Some(then_last));
                assert(pipeline.no_keyframe(events, i + 1));
            } else {
                assert(pipeline.no_keyframe(events, 0));
            }
        } else {
            assert(pipeline.keyframe_at(events, last) == Some(
                pipeline.after(events).last_keyframe,
            ));
            assert(pipeline.no_keyframe(events, last + 1));
        }
    }
}

proof fn lemma_last_keyframe_unique(
    pipeline: VideoPipeline,
    events: Seq<PipelineEvent>,
    a: Instant,
    b: Instant,
)
    requires
        pipeline.is_last_keyframe(events, a),
        pipeline.is_last_keyframe(events, b),
    ensures
        a == b,
{
    if !pipeline.no_keyframe(events, 0) {
        let i = choose|i: int|
            0 <= i < events.len() && #[trigger] pipeline.keyframe_at(events, i) == Some(a)
                && pipeline.no_keyframe(events, i + 1);
        let j = choose|j: int|
            0 <= j < events.len() && #[trigger] pipeline.keyframe_at(events, j) == Some(b)
                && pipeline.no_keyframe(events, j + 1);
        if i < j {
            assert(pipeline.keyframe_at(events, j) is None);
        }
        if j < i {
            assert(pipeline.keyframe_at(events, i) is None);
        }
    }
}

/// A request has the next frame be a keyframe; so has a switch of the
/// resolution that takes place, and one that falls back.
pub proof fn law_requests_make_keyframes_due(pipeline: VideoPipeline, event: PipelineEvent)
    requires
        pipeline.awaits(event),
        event == PipelineEvent::Command(Some(PipelineCmd::ForceKeyframe)) || event
            == (PipelineEvent::SourceStarted { started: true }),
    ensures
        pipeline.step(event).0.force_next_idr,
        event is SourceStarted ==> pipeline.step(event).1 is ResetEncoder,
{
}

/// A frame that comes when the keyframe interval has passed since the last
/// keyframe is one, and one that comes before and was not requested is not.
pub proof fn law_keyframes_keep_their_interval(pipeline: VideoPipeline, now: Instant)
    requires
        pipeline.phase is Sizing,
        !pipeline.force_next_idr,
    ensures
        pipeline.step(PipelineEvent::Sized { now }).1 == (PipelineAction::Encode {
            force_idr: now.since(pipeline.last_keyframe) >= pipeline.keyframe_interval.nanos,
        }),
        pipeline.step(PipelineEvent::Sized { now }).0.last_keyframe == if now.since(
            pipeline.last_keyframe,
        ) >= pipeline.keyframe_interval.nanos {
            now
        } else {
            pipeline.last_keyframe
        },
{
}

/// A command for the size that is captured already changes nothing.
pub proof fn law_same_size_is_a_noop(pipeline: VideoPipeline)
    ensures
        pipeline.command_step(PipelineCmd::Resolution(pipeline.dst_w, pipeline.dst_h)) == (
            pipeline,
            PipelineAction::NextCommand,
        ),
{
}

/// A switch of the resolution either takes place, or leaves the old size and
/// restarts capture at it, or ends the video: the size never changes otherwise.
pub proof fn law_resolution_switch(pipeline: VideoPipeline, event: PipelineEvent)
    requires
        pipeline.awaits(event),
    ensures
        ({
            let after = pipeline.step(event).0;
            (after.dst_w, after.dst_h) != (pipeline.dst_w, pipeline.dst_h) ==> event == (
            PipelineEvent::SourceStarted { started: true }) && pipeline.phase == (
            Phase::Switching { width: after.dst_w, height: after.dst_h })
        }),
        pipeline.phase is Switching && event == (PipelineEvent::SourceStarted { started: false })
            ==> pipeline.step(event).1 == (PipelineAction::StartSource {
            width: pipeline.dst_w,
            height: pipeline.dst_h,
        }),
        pipeline.phase is Restoring && event == (PipelineEvent::SourceStarted { started: false })
            ==> pipeline.step(event).1 is Stop,
{
}

/// Frames are encoded only once no newer one is queued: the pipeline skips to
/// the newest.
pub proof fn law_only_the_newest_frame_is_encoded(pipeline: VideoPipeline, event: PipelineEvent)
    requires
        pipeline.awaits(event),
    ensures
        pipeline.step(event).1 is Resize <==> event == (PipelineEvent::Newer { replaced: false }),
        pipeline.step(event).1 is Encode <==> event is Sized,
        pipeline.step(event).0.phase is Sizing <==> pipeline.step(event).1 is Resize,
{
}

/// A stopped pipeline waits for nothing: no event takes it further.
pub proof fn law_stopped_is_final(pipeline: VideoPipeline, event: PipelineEvent)
    requires
        pipeline.awaits(event),
    ensures
        !(pipeline.phase is Stopped),
        pipeline.step(event).1 is Stop <==> pipeline.step(event).0.phase is Stopped,
{
}

/// The media clock tracks real time: as long as successive samples come between
/// a millisecond and a second apart, the durations of the samples that a
/// pipeline sends add up to the time that has passed since the one before them.
pub proof fn law_media_clock_tracks_real_time(pipeline: VideoPipeline, events: Seq<PipelineEvent>)
    requires
        pipeline.last_emit is Some,
        pipeline.awaits_all(events),
        pipeline.emits_steadily(events),
    ensures
        pipeline.after(events).last_emit matches Some(last) && pipeline.media_time(events)
            == last.nanos - pipeline.last_emit->0.nanos,
    decreases events.len(),
{
    if events.len() > 0 {
        law_media_clock_tracks_real_time(pipeline, events.drop_last());
    }
}

/// A command for any other size than the one that is captured restarts capture
/// at that size, larger or smaller. A source that then starts makes it the size
/// of the video, and the encoder starts over.
pub proof fn law_another_size_restarts_capture(pipeline: VideoPipeline, w: u32, h: u32)
    requires
        pipeline.phase is Commands,
        w != pipeline.dst_w || h != pipeline.dst_h,
    ensures
        ({
            let asked = pipeline.step(
                PipelineEvent::Command(Some(PipelineCmd::Resolution(w, h))),
            );
            let started = asked.0.step(PipelineEvent::SourceStarted { started: true });
            let applied = started.0.step(PipelineEvent::Applied);
            &&& pipeline.command_step(PipelineCmd::Resolution(w, h)).1 == (
            PipelineAction::StartSource { width: w, height: h })
            &&& asked.1 == (PipelineAction::StartSource { width: w, height: h })
            &&& started.1 is ResetEncoder
            &&& applied.1 is NextCommand
            &&& applied.0 == (VideoPipeline {
                dst_w: w,
                dst_h: h,
                force_next_idr: true,
                ..pipeline
            })
        }),
{
}

/// A size that cannot be captured leaves the video at the size it had: capture
/// restarts there, and where that fails too the video ends.
pub proof fn law_a_failed_switch_falls_back(pipeline: VideoPipeline, w: u32, h: u32)
    requires
        pipeline.phase is Commands,
        w != pipeline.dst_w || h != pipeline.dst_h,
    ensures
        ({
            let asked = pipeline.step(
                PipelineEvent::Command(Some(PipelineCmd::Resolution(w, h))),
            );
            let failed = asked.0.step(PipelineEvent::SourceStarted { started: false });
            let restored = failed.0.step(PipelineEvent::SourceStarted { started: true });
            let applied = restored.0.step(PipelineEvent::Applied);
            let lost = failed.0.step(PipelineEvent::SourceStarted { started: false });
            &&& failed.1 == (PipelineAction::StartSource {
                width: pipeline.dst_w,
                height: pipeline.dst_h,
            })
            &&& restored.1 is ResetEncoder
            &&& applied.1 is NextCommand
            &&& applied.0 == (VideoPipeline { force_next_idr: true, ..pipeline })
            &&& lost.1 is Stop
        }),
{
}

/// Every bit rate that is asked for reaches the encoder as it is, and changes
/// nothing else.
pub proof fn law_bit_rates_reach_the_encoder(pipeline: VideoPipeline, bps: u32)
    requires
        pipeline.phase is Commands,
    ensures
        ({
            let asked = pipeline.step(PipelineEvent::Command(Some(PipelineCmd::Bitrate(bps))));
            let applied = asked.0.step(PipelineEvent::Applied);
            &&& asked.1 == PipelineAction::SetBitrate(bps)
            &&& applied.0 == pipeline
            &&& applied.1 is NextCommand
        }),
{
}

/// A request for a keyframe makes one due, and changes nothing else.
pub proof fn law_a_request_changes_nothing_else(pipeline: VideoPipeline)
    requires
        pipeline.phase is Commands,
    ensures
        pipeline.step(PipelineEvent::Command(Some(PipelineCmd::ForceKeyframe))) == (
            VideoPipeline { force_next_idr: true, ..pipeline },
            PipelineAction::NextCommand,
        ),
{
}

/// One turn of the loop, from the look at whether to stop to the sample: the
/// queue of commands is emptied, a frame is waited for, the newest one is brought
/// to the size of the video and encoded, and its sample is sent. A turn without
/// commands changes nothing but the times of the last keyframe and the last
/// sample, and that no keyframe is due any more.
pub proof fn law_a_turn_sends_a_frame(
    pipeline: VideoPipeline,
    sized_at: Instant,
    nominal: Duration,
    encoded_at: Instant,
)
    requires
        pipeline.phase is Head,
    ensures
        ({
            let checked = pipeline.step(PipelineEvent::StopChecked { stop: false });
            let emptied = checked.0.step(PipelineEvent::Command(None));
            let arrived = emptied.0.step(PipelineEvent::Frame(FrameArrival::Arrived));
            let newer = arrived.0.step(PipelineEvent::Newer { replaced: true });
            let newest = newer.0.step(PipelineEvent::Newer { replaced: false });
            let sized = newest.0.step(PipelineEvent::Sized { now: sized_at });
            let encoded = sized.0.step(
                PipelineEvent::Encoded { duration: Some(nominal), now: encoded_at },
            );
            &&& checked.1 is NextCommand
            &&& emptied.1 == (PipelineAction::WaitForFrame { millis: 200 })
            &&& arrived.1 is TryNewer
            &&& newer == (arrived.0, PipelineAction::TryNewer)
            &&& newest.1 == (PipelineAction::Resize {
                width: pipeline.dst_w,
                height: pipeline.dst_h,
            })
            &&& sized.1 is Encode
            &&& encoded.1 is Write
            &&& encoded.0 == (VideoPipeline {
                force_next_idr: false,
                last_keyframe: if sized.1 == (PipelineAction::Encode { force_idr: true }) {
                    sized_at
                } else {
                    pipeline.last_keyframe
                },
                last_emit: Some(encoded_at),
                ..pipeline
            })
        }),
{
}

/// Without a frame in time the loop starts over as it was; it ends where it is
/// told to, and where no frame will come any more. A frame that cannot be
/// encoded is left out.
pub proof fn law_turns_without_a_sample(pipeline: VideoPipeline, now: Instant)
    ensures
        pipeline.phase is Head ==> pipeline.step(PipelineEvent::StopChecked { stop: true }).1
            is Stop,
        pipeline.phase is Frame ==> {
            &&& pipeline.step(PipelineEvent::Frame(FrameArrival::TimedOut)) == (
                VideoPipeline { phase: Phase::Head, ..pipeline },
                PipelineAction::CheckStop,
            )
            &&& pipeline.step(PipelineEvent::Frame(FrameArrival::Disconnected)).1 is Stop
        },
        pipeline.phase is Encoding ==> pipeline.step(
            PipelineEvent::Encoded { duration: None, now },
        ) == (VideoPipeline { phase: Phase::Head, ..pipeline }, PipelineAction::CheckStop),
{
}

/// A sample lasts as long as the time since the one before it, but no less than
/// a millisecond and no more than a second; the first one lasts as long as the
/// encoder says.
pub proof fn law_samples_last_until_they_are_sent(
    pipeline: VideoPipeline,
    nominal: Duration,
    now: Instant,
)
    requires
        pipeline.phase is Encoding,
    ensures
        pipeline.step(PipelineEvent::Encoded { duration: Some(nominal), now }).1 matches
            PipelineAction::Write { duration } && match pipeline.last_emit {
            None => duration == nominal,
            Some(before) => {
                let gap = now.nanos - before.nanos;
                &&& gap < 1_000_000 ==> duration.nanos == 1_000_000
                &&& 1_000_000 <= gap <= 1_000_000_000 ==> duration.nanos == gap
                &&& gap > 1_000_000_000 ==> duration.nanos == 1_000_000_000
            },
        },
{
}

} // verus!
