//! The cadence of screen capture and what the capture loop does next.

use vstd::prelude::*;

verus! {

/// What became of a frame that capture offered to the encoder's queue.
#[derive(Clone, Copy, Debug, PartialEq, Eq, Structural)]
pub enum Submitted {
    /// The encoder will see it.
    Accepted,
    /// The queue was full: the encoder is still busy with an earlier frame.
    Full,
    /// The encoder is gone.
    Disconnected,
}

/// What happened in one round of the capture loop.
#[derive(Clone, Copy, Debug, PartialEq, Eq, Structural)]
pub enum CaptureEvent {
    /// The session signalled its end.
    ExitSignalled,
    /// A frame was captured and offered to the encoder.
    Captured(Submitted),
    /// The screen could not be captured.
    CaptureFailed,
}

/// What the capture loop does after a round.
#[derive(Clone, Copy, Debug, PartialEq, Eq, Structural)]
pub enum CaptureAction {
    /// Wait for the next tick and capture again.
    Continue,
    /// Signal the end of the session to the other pipelines and stop.
    Stop,
}

/// The capture loop goes on as long as frames are captured and an encoder
/// is there to take them. A frame that finds the queue full is dropped and
/// capture goes on: the newest frame gives way, so that the encoder never
/// lags by more than one.
pub open spec fn capture_action(event: CaptureEvent) -> CaptureAction {
    match event {
        CaptureEvent::Captured(Submitted::Accepted) => CaptureAction::Continue,
        CaptureEvent::Captured(Submitted::Full) => CaptureAction::Continue,
        _ => CaptureAction::Stop,
    }
}

/// What the capture loop does after a round.
pub fn capture_step(event: CaptureEvent) -> (action: CaptureAction)
    ensures
        action == capture_action(event),
{
    match event {
        CaptureEvent::Captured(Submitted::Accepted) => CaptureAction::Continue,
        CaptureEvent::Captured(Submitted::Full) => CaptureAction::Continue,
        _ => CaptureAction::Stop,
    }
}

/// Microseconds between two captures at `fps` frames per second, rounded
/// down. There is no cadence for zero frames per second.
pub fn frame_interval_micros(fps: u8) -> (interval: Option<u64>)
    ensures
        fps == 0 ==> interval is None,
        fps > 0 ==> interval == Some((1_000_000int / (fps as int)) as u64),
{
    if fps == 0 {
        None
    } else {
        Some(1_000_000u64 / fps as u64)
    }
}

/// Microseconds from the start of capture to `now`, both read from the same
/// monotonic clock. A clock that went backwards gives `None`.
pub fn capture_time(epoch: i64, now: i64) -> (elapsed: Option<i64>)
    ensures
        now >= epoch && now - epoch <= i64::MAX ==> elapsed == Some((now - epoch) as i64),
        now < epoch || now - epoch > i64::MAX ==> elapsed is None,
{
    if now < epoch {
        None
    } else {
        now.checked_sub(epoch)
    }
}

} // verus!
