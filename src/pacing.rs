use vstd::prelude::*;
use crate::session::{SessionLifecycle, SessionState};

verus! {

// All times are nanoseconds on the runtime's clock.

/// The decoder may take this many tenths of the frame interval.
pub const DECODE_DEADLINE_TENTHS: u64 = 8;

/// The latest time at which the stream path stops waiting for a decoded frame:
/// the entry time plus 0.8 of the frame interval, rounded down.
pub open spec fn decode_deadline_of(entry: u64, frame_interval: u64) -> int {
    entry + (frame_interval * DECODE_DEADLINE_TENTHS) / 10
}

/// Computes the stream path's deadline for waiting on the decoder.
pub fn decode_deadline(entry: u64, frame_interval: u64) -> (r: u64)
    requires
        entry + frame_interval <= u64::MAX,
    ensures
        r == decode_deadline_of(entry, frame_interval),
        entry <= r <= entry + frame_interval,
{
    let part = frame_interval / 10 * DECODE_DEADLINE_TENTHS + frame_interval % 10
        * DECODE_DEADLINE_TENTHS / 10;
    proof {
        let q = frame_interval / 10;
        let m = frame_interval % 10;
        assert(frame_interval == q * 10 + m);
        assert((frame_interval * 8) / 10 == q * 8 + (m * 8) / 10) by (nonlinear_arith)
            requires
                frame_interval == q * 10 + m,
                0 <= m < 10,
        ;
    }
    entry + part
}

/// The frame that the render path shows.
#[derive(PartialEq, Eq, Structural, Debug, Clone, Copy)]
pub struct FrameChoice {
    /// The time the frame is presented for.
    pub timestamp: u64,
    /// Whether a decoded image comes with it; without one the renderer repeats
    /// or blanks.
    pub has_image: bool,
}

/// One step of the stream path's bounded poll of the decoder.
#[derive(PartialEq, Eq, Structural, Debug, Clone, Copy)]
pub enum PollStep {
    /// Yield the processor and poll the decoder again.
    PollAgain,
    /// Stop polling and render this.
    Render(FrameChoice),
}

/// One step of the poll, as `stream_poll_step` decides it.
pub open spec fn poll_step_of(now: u64, deadline: u64, decoded: Option<u64>, vsync: u64) -> PollStep {
    if now >= deadline {
        PollStep::Render(FrameChoice { timestamp: vsync, has_image: false })
    } else {
        match decoded {
            Some(ts) => PollStep::Render(FrameChoice { timestamp: ts, has_image: true }),
            None => PollStep::PollAgain,
        }
    }
}

/// Whether the decoder may be polled at `now`: only before the deadline.
pub fn poll_due(now: u64, deadline: u64) -> (r: bool)
    ensures
        r == (now < deadline),
{
    now < deadline
}

/// Decides one step of the poll, where `decoded` is what a poll made at `now`
/// returned. At or past the deadline the path gives up and presents at the
/// predicted vsync time with no image; before it, a decoded frame is taken at
/// once, and without one the poll goes on.
pub fn stream_poll_step(now: u64, deadline: u64, decoded: Option<u64>, vsync: u64) -> (r: PollStep)
    ensures
        r == poll_step_of(now, deadline, decoded, vsync),
{
    if now >= deadline {
        PollStep::Render(FrameChoice { timestamp: vsync, has_image: false })
    } else {
        match decoded {
            Some(ts) => PollStep::Render(FrameChoice { timestamp: ts, has_image: true }),
            None => PollStep::PollAgain,
        }
    }
}

/// The stream path never waits past 0.8 of the frame interval: its deadline
/// lies within that much of its entry, and once the clock reaches the deadline
/// no poll is due and the step renders at the predicted vsync time with no image.
pub proof fn lemma_poll_bounded_by_deadline(
    entry: u64,
    frame_interval: u64,
    now: u64,
    decoded: Option<u64>,
    vsync: u64,
)
    requires
        entry + frame_interval <= u64::MAX,
        now >= decode_deadline_of(entry, frame_interval),
    ensures
        decode_deadline_of(entry, frame_interval) - entry <= frame_interval * 8 / 10,
        !(now < decode_deadline_of(entry, frame_interval)),
        poll_step_of(now, decode_deadline_of(entry, frame_interval) as u64, decoded, vsync)
            == PollStep::Render(FrameChoice { timestamp: vsync, has_image: false }),
{
    assert(frame_interval * 8 / 10 <= frame_interval) by (nonlinear_arith);
}

/// Which scene a frame shows.
#[derive(PartialEq, Eq, Structural, Debug, Clone, Copy)]
pub enum RenderPath {
    /// The idle lobby, rendered at the predicted display time.
    Lobby,
    /// The remote stream, under the decode deadline.
    Stream,
}

/// The stream path where a stream context exists, else the lobby.
pub fn select_render_path(session: &SessionLifecycle) -> (r: RenderPath)
    ensures
        r == (if session.has_stream { RenderPath::Stream } else { RenderPath::Lobby }),
{
    if session.has_stream {
        RenderPath::Stream
    } else {
        RenderPath::Lobby
    }
}

/// One submission of a frame to the runtime.
#[derive(PartialEq, Eq, Structural, Debug, Clone, Copy)]
pub struct Submission {
    pub display_time: u64,
    /// Whether the composed view layers go with it; otherwise the layer set is
    /// empty.
    pub with_layers: bool,
}

/// The first submission of a frame: an empty layer set at the predicted time
/// where the runtime said not to render, else the composed layers at the time
/// the render path resolved.
pub fn plan_submission(should_render: bool, resolved_time: u64, predicted_time: u64) -> (r: Submission)
    ensures
        r == (if should_render {
            Submission { display_time: resolved_time, with_layers: true }
        } else {
            Submission { display_time: predicted_time, with_layers: false }
        }),
{
    if should_render {
        Submission { display_time: resolved_time, with_layers: true }
    } else {
        Submission { display_time: predicted_time, with_layers: false }
    }
}

/// The retry after a failed submission: an empty layer set at the originally
/// predicted time, whatever time failed, so that the runtime's pacing does not
/// drift.
pub fn fallback_submission(predicted_time: u64) -> (r: Submission)
    ensures
        r == (Submission { display_time: predicted_time, with_layers: false }),
{
    Submission { display_time: predicted_time, with_layers: false }
}

/// What the frame loop does next, once the runtime's events are drained.
#[derive(PartialEq, Eq, Structural, Debug, Clone, Copy)]
pub enum LoopStep {
    /// Leave the render loop.
    Unwind,
    /// Sleep for the idle backoff and start over.
    Backoff,
    /// Drain the streaming engine, wait for the frame and render it.
    RunFrame,
}

/// The frame loop's step for the session's state.
pub fn next_loop_step(session: &SessionLifecycle) -> (r: LoopStep)
    ensures
        r == (match session.state {
            SessionState::Exiting => LoopStep::Unwind,
            SessionState::Idle => LoopStep::Backoff,
            SessionState::Running => LoopStep::RunFrame,
        }),
{
    match session.state {
        SessionState::Exiting => LoopStep::Unwind,
        SessionState::Idle => LoopStep::Backoff,
        SessionState::Running => LoopStep::RunFrame,
    }
}

} // verus!
