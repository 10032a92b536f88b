//! What the capture backends have in common.

use crate::time::Duration;
use vstd::prelude::*;

verus! {

/// Why capture did not start.
#[derive(Clone, Copy, Debug, PartialEq, Eq, Structural)]
pub enum CaptureError {
    /// The displays could not be listed.
    NoContent,
    /// There is no display.
    NoDisplay,
    /// The stream did not start.
    NotStarted,
    /// The thread that owns the stream ended before it was set up.
    OwnerGone,
}

/// How far the setup of a capture stream has come.
#[derive(Clone, Copy, Debug, PartialEq, Eq, Structural)]
pub enum CaptureSetup {
    /// The displays are to be listed.
    List,
    /// The stream of this display is to be started.
    Start { display: usize },
    /// The stream runs.
    Running,
    Failed(CaptureError),
}

impl CaptureSetup {
    /// The displays were listed, and there are so many; or they could not be.
    /// The first one is captured.
    pub fn listed(displays: Option<usize>) -> (next: CaptureSetup)
        ensures
            next == match displays {
                None => CaptureSetup::Failed(CaptureError::NoContent),
                Some(n) => if n == 0 {
                    CaptureSetup::Failed(CaptureError::NoDisplay)
                } else {
                    CaptureSetup::Start { display: 0 }
                },
            },
    {
        match displays {
            None => CaptureSetup::Failed(CaptureError::NoContent),
            Some(n) => if n == 0 {
                CaptureSetup::Failed(CaptureError::NoDisplay)
            } else {
                CaptureSetup::Start { display: 0 }
            },
        }
    }

    /// The stream was started, or could not be.
    pub fn started(ok: bool) -> (next: CaptureSetup)
        ensures
            next == if ok {
                CaptureSetup::Running
            } else {
                CaptureSetup::Failed(CaptureError::NotStarted)
            },
    {
        if ok {
            CaptureSetup::Running
        } else {
            CaptureSetup::Failed(CaptureError::NotStarted)
        }
    }
}

/// The result of a start, from what the thread that owns the stream reported:
/// nothing, where it ended before it could.
pub fn start_outcome(report: Option<Result<(), CaptureError>>) -> (outcome: Result<(), CaptureError>)
    ensures
        outcome == match report {
            Some(r) => r,
            None => Err(CaptureError::OwnerGone),
        },
{
    match report {
        Some(r) => r,
        None => Err(CaptureError::OwnerGone),
    }
}

/// The time between two frames at `fps` frames per second, in microseconds. No
/// frames per second count as one.
pub open spec fn frame_gap_micros(fps: u32) -> nat {
    if fps == 0 {
        1_000_000
    } else {
        1_000_000nat / fps as nat
    }
}

/// The time between two frames at `fps` frames per second, in microseconds.
pub fn gap_micros(fps: u32) -> (micros: u64)
    ensures
        micros == frame_gap_micros(fps),
        micros <= 1_000_000,
{
    if fps == 0 {
        1_000_000
    } else {
        proof {
            vstd::arithmetic::div_mod::lemma_div_is_ordered_by_denominator(
                1_000_000,
                1,
                fps as int,
            );
        }
        (1_000_000 / fps) as u64
    }
}

/// The time between two frames at `fps` frames per second.
pub fn frame_gap(fps: u32) -> (gap: Duration)
    ensures
        gap.nanos == frame_gap_micros(fps) * 1000,
{
    Duration::from_micros(gap_micros(fps))
}

/// A second has room for as many gaps as there are frames per second, and not for
/// gaps that are a microsecond longer.
pub proof fn law_frames_fill_the_second(fps: u32)
    requires
        fps > 0,
    ensures
        frame_gap_micros(fps) * fps <= 1_000_000 < (frame_gap_micros(fps) + 1) * fps,
        frame_gap_micros(0) == frame_gap_micros(1),
{
    let gap = frame_gap_micros(fps);
    vstd::arithmetic::div_mod::lemma_fundamental_div_mod(1_000_000, fps as int);
    assert(gap * fps == fps * gap) by (nonlinear_arith);
    assert((gap + 1) * fps == gap * fps + fps) by (nonlinear_arith);
    assert(1_000_000nat / 1nat == 1_000_000);
}

} // verus!
