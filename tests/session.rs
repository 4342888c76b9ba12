use alvr_client_protocol::pacing::{
    decode_deadline, fallback_submission, next_loop_step, plan_submission, poll_due, select_render_path,
    stream_poll_step, FrameChoice, LoopStep, PollStep, RenderPath, Submission,
};
use alvr_client_protocol::platform::{
    default_no_reinit_platforms, loader_suffix, platform_listed, Platform,
};
use alvr_client_protocol::session::{
    hand_slot, negotiate, route_haptics, HapticCommand, Haptics, LifecycleAction,
    NegotiationAction, SessionEvent, SessionLifecycle, SessionState, IDLE_BACKOFF_MS,
};
use alvr_client_protocol::stream_config::{
    NegotiatedStreamingConfig, Resolution, ServerVersion, StreamConfig, StreamSettings,
};

fn config(refresh: f32) -> StreamConfig {
    let version = ServerVersion { major: 20, minor: 6, patch: 0 };
    StreamConfig {
        server_version: version,
        settings: StreamSettings {
            server_version: version,
            foveated_encoding_enabled: true,
            use_full_range: true,
            document: br#"{"video":{"bitrate":30}}"#.to_vec(),
        },
        negotiated_config: NegotiatedStreamingConfig {
            view_resolution: Resolution { width: 1832, height: 1920 },
            refresh_rate_hint: refresh.to_bits(),
            game_audio_sample_rate: 48000,
            enable_foveated_encoding: true,
            use_multimodal_protocol: false,
            use_full_range: true,
            encoding_gamma: 1.0f32.to_bits(),
            enable_hdr: false,
            wired: false,
        },
    }
}

#[test]
fn unchanged_config_is_kept() {
    let table = default_no_reinit_platforms();
    for p in [Platform::Quest3, Platform::Focus3] {
        let n = negotiate(&Some(config(90.0)), config(90.0), p, &table);
        assert_eq!(n.action, NegotiationAction::Keep);
        assert_eq!(n.last_config, config(90.0));
    }
}

#[test]
fn changed_config_on_no_reinit_platform_requests_exit() {
    let table = default_no_reinit_platforms();
    let n = negotiate(&Some(config(90.0)), config(120.0), Platform::XRElite, &table);
    assert_eq!(n.action, NegotiationAction::RequestSessionExit);
    assert_eq!(n.last_config, config(120.0));
}

#[test]
fn changed_settings_alone_count_as_a_change() {
    let table = default_no_reinit_platforms();
    let mut other = config(90.0);
    other.settings.document = br#"{"video":{"bitrate":40}}"#.to_vec();
    let n = negotiate(&Some(config(90.0)), other.clone(), Platform::Quest3, &table);
    assert_eq!(n.action, NegotiationAction::CreateStreamContext);
    assert_eq!(n.last_config, other);
    let m = negotiate(&Some(config(90.0)), other, Platform::Focus3, &table);
    assert_eq!(m.action, NegotiationAction::RequestSessionExit);
}

#[test]
fn changed_config_elsewhere_hot_swaps() {
    let table = default_no_reinit_platforms();
    let n = negotiate(&Some(config(90.0)), config(120.0), Platform::Quest2, &table);
    assert_eq!(n.action, NegotiationAction::CreateStreamContext);
    let first = negotiate(&None, config(72.0), Platform::Pico4, &table);
    assert_eq!(first.action, NegotiationAction::CreateStreamContext);
    assert_eq!(first.last_config, config(72.0));
}

#[test]
fn platform_table_lookup() {
    let table = default_no_reinit_platforms();
    assert!(platform_listed(&table, Platform::Focus3));
    assert!(platform_listed(&table, Platform::ViveUnknown));
    assert!(!platform_listed(&table, Platform::Quest1));
    assert!(!platform_listed(&vec![], Platform::Focus3));
}

#[test]
fn loader_suffixes() {
    assert_eq!(loader_suffix(Platform::QuestPro), "quest");
    assert_eq!(loader_suffix(Platform::PicoNeo3), "pico");
    assert_eq!(loader_suffix(Platform::Yvr), "yvr");
    assert_eq!(loader_suffix(Platform::Lynx), "lynx");
    assert_eq!(loader_suffix(Platform::Focus3), "generic");
    assert_eq!(loader_suffix(Platform::Unknown), "generic");
}

#[test]
fn lifecycle_transitions() {
    let mut s = SessionLifecycle::new();
    assert_eq!(s.state, SessionState::Idle);
    assert!(s.needs_idle_backoff());
    assert_eq!(next_loop_step(&s), LoopStep::Backoff);
    assert_eq!(
        s.handle_session_event(SessionEvent::ReferenceSpaceChangePending),
        LifecycleAction::Ignore
    );
    assert_eq!(s.handle_session_event(SessionEvent::SessionReady), LifecycleAction::BeginSession);
    assert_eq!(s.state, SessionState::Running);
    assert!(!s.has_stream);
    assert_eq!(next_loop_step(&s), LoopStep::RunFrame);
    assert_eq!(
        s.handle_session_event(SessionEvent::ReferenceSpaceChangePending),
        LifecycleAction::RecreateReferenceSpace
    );
    assert_eq!(s.handle_session_event(SessionEvent::EventsLost), LifecycleAction::Log);
    assert_eq!(s.handle_session_event(SessionEvent::PerfWarning), LifecycleAction::Log);
    s.apply_negotiation(NegotiationAction::CreateStreamContext);
    assert!(s.has_stream);
    assert_eq!(select_render_path(&s), RenderPath::Stream);
    s.stream_stopped();
    assert!(!s.has_stream);
    assert_eq!(select_render_path(&s), RenderPath::Lobby);
    s.apply_negotiation(NegotiationAction::CreateStreamContext);
    assert_eq!(s.handle_session_event(SessionEvent::SessionStopping), LifecycleAction::EndSession);
    assert_eq!(s.state, SessionState::Idle);
    assert!(!s.has_stream);
    assert_eq!(
        s.handle_session_event(SessionEvent::SessionLossPending),
        LifecycleAction::UnwindRenderLoop
    );
    assert!(s.is_terminal());
    assert_eq!(next_loop_step(&s), LoopStep::Unwind);
    assert_eq!(IDLE_BACKOFF_MS, 100);
}

#[test]
fn negotiation_outside_a_running_session_builds_no_stream() {
    let mut s = SessionLifecycle::new();
    s.apply_negotiation(NegotiationAction::CreateStreamContext);
    assert!(!s.has_stream);
    let mut r = SessionLifecycle::new();
    r.handle_session_event(SessionEvent::SessionReady);
    r.apply_negotiation(NegotiationAction::RequestSessionExit);
    assert!(!r.has_stream);
    r.handle_session_event(SessionEvent::SessionExiting);
    assert!(r.is_terminal());
}

#[test]
fn deadline_is_eight_tenths_of_interval() {
    assert_eq!(decode_deadline(1_000, 11_111_111), 1_000 + 8_888_888);
    assert_eq!(decode_deadline(0, 10), 8);
    assert_eq!(decode_deadline(5, 0), 5);
    assert_eq!(decode_deadline(0, u64::MAX), u64::MAX / 10 * 8 + 4);
}

#[test]
fn poll_steps() {
    assert_eq!(
        stream_poll_step(10, 100, Some(42), 500),
        PollStep::Render(FrameChoice { timestamp: 42, has_image: true })
    );
    assert_eq!(stream_poll_step(10, 100, None, 500), PollStep::PollAgain);
    assert_eq!(
        stream_poll_step(100, 100, None, 500),
        PollStep::Render(FrameChoice { timestamp: 500, has_image: false })
    );
    assert_eq!(
        stream_poll_step(150, 100, Some(7), 500),
        PollStep::Render(FrameChoice { timestamp: 500, has_image: false })
    );
    assert!(poll_due(99, 100));
    assert!(!poll_due(100, 100));
    assert!(!poll_due(101, 100));
}

#[test]
fn submissions() {
    assert_eq!(plan_submission(true, 33, 40), Submission { display_time: 33, with_layers: true });
    assert_eq!(plan_submission(false, 33, 40), Submission { display_time: 40, with_layers: false });
    assert_eq!(fallback_submission(40), Submission { display_time: 40, with_layers: false });
}

#[test]
fn haptics_routing() {
    let left = 0x1234_5678_9abc_def0u64;
    assert_eq!(hand_slot(left, left), 0);
    assert_eq!(hand_slot(1, left), 1);
    assert_eq!(hand_slot(0, left), 1);
    let ev = Haptics {
        device_id: left,
        duration_ns: 5_000_000,
        frequency: 160.0f32.to_bits(),
        amplitude: 0.75f32.to_bits(),
    };
    assert_eq!(
        route_haptics(ev, left),
        HapticCommand {
            hand_slot: 0,
            duration_ns: 5_000_000,
            frequency: 160.0f32.to_bits(),
            amplitude: 0.75f32.to_bits(),
        }
    );
    let right = Haptics { device_id: 99, ..ev };
    assert_eq!(route_haptics(right, left).hand_slot, 1);
}
