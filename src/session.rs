use vstd::prelude::*;
use crate::platform::{platform_listed, Platform};
use crate::stream_config::{configs_equal, same_config, StreamConfig};

verus! {

/// What the negotiator asks of the session for a newly started stream.
#[derive(PartialEq, Eq, Structural, Debug, Clone, Copy)]
pub enum NegotiationAction {
    /// The configuration did not change: nothing to do.
    Keep,
    /// The platform cannot take the new configuration in place: the session must
    /// exit and be rebuilt with it.
    RequestSessionExit,
    /// Build a new stream context from the configuration, replacing any other.
    CreateStreamContext,
}

/// The negotiator's decision, with the configuration to remember from now on.
#[derive(Debug, Clone)]
pub struct Negotiation {
    pub action: NegotiationAction,
    pub last_config: StreamConfig,
}

/// The action for a stream that starts with `candidate` while `current` is the
/// configuration known so far.
/// Whether `candidate` is the configuration already known.
pub open spec fn unchanged(current: Option<StreamConfig>, candidate: StreamConfig) -> bool {
    match current {
        Some(c) => same_config(c, candidate),
        None => false,
    }
}

pub open spec fn negotiation_action(
    current: Option<StreamConfig>,
    candidate: StreamConfig,
    platform: Platform,
    no_reinit: Seq<Platform>,
) -> NegotiationAction {
    if unchanged(current, candidate) {
        NegotiationAction::Keep
    } else if no_reinit.contains(platform) {
        NegotiationAction::RequestSessionExit
    } else {
        NegotiationAction::CreateStreamContext
    }
}

/// Decides how a session reacts to a stream starting with `candidate`. An
/// unchanged configuration needs nothing; a changed one on a platform of
/// `no_reinit` asks the session to exit; on any other platform the stream
/// context is rebuilt in place. The candidate is remembered in every case.
pub fn negotiate(
    current: &Option<StreamConfig>,
    candidate: StreamConfig,
    platform: Platform,
    no_reinit: &Vec<Platform>,
) -> (r: Negotiation)
    ensures
        r.last_config == candidate,
        r.action == negotiation_action(*current, candidate, platform, no_reinit@),
{
    let same = match current {
        Some(c) => configs_equal(c, &candidate),
        None => false,
    };
    let action = if same {
        NegotiationAction::Keep
    } else if platform_listed(no_reinit, platform) {
        NegotiationAction::RequestSessionExit
    } else {
        NegotiationAction::CreateStreamContext
    };
    Negotiation { action, last_config: candidate }
}

/// A stream that starts again with the configuration already in use neither
/// restarts the session nor builds a stream context.
pub proof fn lemma_negotiation_idempotent(
    config: StreamConfig,
    platform: Platform,
    no_reinit: Seq<Platform>,
)
    ensures
        negotiation_action(Some(config), config, platform, no_reinit) == NegotiationAction::Keep,
{
}

/// A changed configuration asks for a session exit, and builds no stream
/// context, exactly on the platforms of the table; elsewhere it builds the stream
/// context in place without an exit.
pub proof fn lemma_negotiation_on_change(
    current: Option<StreamConfig>,
    candidate: StreamConfig,
    platform: Platform,
    no_reinit: Seq<Platform>,
)
    requires
        !unchanged(current, candidate),
    ensures
        no_reinit.contains(platform) ==> negotiation_action(current, candidate, platform, no_reinit)
            == NegotiationAction::RequestSessionExit,
        !no_reinit.contains(platform) ==> negotiation_action(current, candidate, platform, no_reinit)
            == NegotiationAction::CreateStreamContext,
{
}

/// Where the session is in its lifecycle.
#[derive(PartialEq, Eq, Structural, Debug, Clone, Copy)]
pub enum SessionState {
    /// No session is running.
    Idle,
    /// The session has begun; a reference space and a lobby exist.
    Running,
    /// The runtime ended the session for good: the render loop unwinds and the
    /// runtime session is built again from scratch.
    Exiting,
}

/// A session-lifecycle event from the XR runtime.
#[derive(PartialEq, Eq, Structural, Debug, Clone, Copy)]
pub enum SessionEvent {
    SessionReady,
    SessionStopping,
    SessionExiting,
    SessionLossPending,
    ReferenceSpaceChangePending,
    EventsLost,
    PerfWarning,
}

/// What the driver does in answer to a session event.
#[derive(PartialEq, Eq, Structural, Debug, Clone, Copy)]
pub enum LifecycleAction {
    /// Begin the session, create the reference space and the lobby, resume the
    /// streaming engine.
    BeginSession,
    /// Pause the streaming engine, release graphics resources, drop the running
    /// context with its stream context, end the session.
    EndSession,
    /// Leave the render loop; the runtime session is recreated from scratch.
    UnwindRenderLoop,
    /// Recreate the reference space and send the new play-space bounds.
    RecreateReferenceSpace,
    /// Only log the event.
    Log,
    /// Nothing to do.
    Ignore,
}

/// The session state machine, and whether a stream context exists.
#[derive(PartialEq, Eq, Structural, Debug, Clone, Copy)]
pub struct SessionLifecycle {
    pub state: SessionState,
    pub has_stream: bool,
}

/// Delay before the next iteration of the frame loop while no session runs.
pub const IDLE_BACKOFF_MS: u64 = 100;

impl SessionLifecycle {
    /// A stream context exists only in a running session.
    pub open spec fn wf(self) -> bool {
        self.has_stream ==> self.state == SessionState::Running
    }

    /// The state and the action that `event` leads to from `self`.
    pub open spec fn after_event(self, event: SessionEvent) -> (SessionLifecycle, LifecycleAction) {
        match event {
            SessionEvent::SessionReady => (
                SessionLifecycle { state: SessionState::Running, has_stream: false },
                LifecycleAction::BeginSession,
            ),
            SessionEvent::SessionStopping => (
                SessionLifecycle { state: SessionState::Idle, has_stream: false },
                LifecycleAction::EndSession,
            ),
            SessionEvent::SessionExiting | SessionEvent::SessionLossPending => (
                SessionLifecycle { state: SessionState::Exiting, has_stream: false },
                LifecycleAction::UnwindRenderLoop,
            ),
            SessionEvent::ReferenceSpaceChangePending => (
                self,
                if self.state == SessionState::Running {
                    LifecycleAction::RecreateReferenceSpace
                } else {
                    LifecycleAction::Ignore
                },
            ),
            SessionEvent::EventsLost | SessionEvent::PerfWarning => (self, LifecycleAction::Log),
        }
    }

    /// No session, no stream context.
    pub fn new() -> (r: SessionLifecycle)
        ensures
            r.state == SessionState::Idle,
            !r.has_stream,
            r.wf(),
    {
        SessionLifecycle { state: SessionState::Idle, has_stream: false }
    }

    /// Applies a runtime session event and says what the driver must do.
    pub fn handle_session_event(&mut self, event: SessionEvent) -> (r: LifecycleAction)
        requires
            old(self).wf(),
        ensures
            final(self).wf(),
            (*final(self), r) == old(self).after_event(event),
    {
        match event {
            SessionEvent::SessionReady => {
                self.state = SessionState::Running;
                self.has_stream = false;
                LifecycleAction::BeginSession
            },
            SessionEvent::SessionStopping => {
                self.state = SessionState::Idle;
                self.has_stream = false;
                LifecycleAction::EndSession
            },
            SessionEvent::SessionExiting | SessionEvent::SessionLossPending => {
                self.state = SessionState::Exiting;
                self.has_stream = false;
                LifecycleAction::UnwindRenderLoop
            },
            SessionEvent::ReferenceSpaceChangePending => {
                if self.state == SessionState::Running {
                    LifecycleAction::RecreateReferenceSpace
                } else {
                    LifecycleAction::Ignore
                }
            },
            SessionEvent::EventsLost | SessionEvent::PerfWarning => LifecycleAction::Log,
        }
    }

    /// Whether the frame loop must back off for `IDLE_BACKOFF_MS`: no session runs.
    pub fn needs_idle_backoff(&self) -> (r: bool)
        ensures
            r == (self.state != SessionState::Running),
    {
        self.state != SessionState::Running
    }

    /// Whether the render loop must be left.
    pub fn is_terminal(&self) -> (r: bool)
        ensures
            r == (self.state == SessionState::Exiting),
    {
        self.state == SessionState::Exiting
    }

    /// Records what the negotiator decided for a started stream: a new stream
    /// context exists after `CreateStreamContext` in a running session; otherwise
    /// nothing changes.
    pub fn apply_negotiation(&mut self, action: NegotiationAction)
        requires
            old(self).wf(),
        ensures
            final(self).wf(),
            final(self).state == old(self).state,
            final(self).has_stream == (old(self).has_stream || (action
                == NegotiationAction::CreateStreamContext && old(self).state
                == SessionState::Running)),
    {
        if action == NegotiationAction::CreateStreamContext && self.state == SessionState::Running {
            self.has_stream = true;
        }
    }

    /// The stream stopped: its context is dropped.
    pub fn stream_stopped(&mut self)
        requires
            old(self).wf(),
        ensures
            final(self).wf(),
            final(self).state == old(self).state,
            !final(self).has_stream,
    {
        self.has_stream = false;
    }
}

/// A haptic feedback request from the server. `frequency` and `amplitude` are
/// binary32 bit patterns; `duration_ns` is wall-clock nanoseconds.
#[derive(PartialEq, Eq, Structural, Debug, Clone, Copy)]
pub struct Haptics {
    pub device_id: u64,
    pub duration_ns: u64,
    pub frequency: u32,
    pub amplitude: u32,
}

/// A vibration to apply on one hand: slot 0 is the left hand, slot 1 the right.
#[derive(PartialEq, Eq, Structural, Debug, Clone, Copy)]
pub struct HapticCommand {
    pub hand_slot: usize,
    pub duration_ns: u64,
    pub frequency: u32,
    pub amplitude: u32,
}

/// The hand slot of a device: 0 for the left-hand device, 1 for any other.
pub fn hand_slot(device_id: u64, left_hand_id: u64) -> (r: usize)
    ensures
        r == (if device_id == left_hand_id { 0usize } else { 1usize }),
{
    if device_id == left_hand_id {
        0
    } else {
        1
    }
}

/// Routes a haptics request to a hand, passing its parameters on unchanged.
pub fn route_haptics(event: Haptics, left_hand_id: u64) -> (r: HapticCommand)
    ensures
        r.hand_slot == (if event.device_id == left_hand_id { 0usize } else { 1usize }),
        r.duration_ns == event.duration_ns,
        r.frequency == event.frequency,
        r.amplitude == event.amplitude,
{
    HapticCommand {
        hand_slot: hand_slot(event.device_id, left_hand_id),
        duration_ns: event.duration_ns,
        frequency: event.frequency,
        amplitude: event.amplitude,
    }
}

} // verus!
