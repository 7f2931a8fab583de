use bridgevr::data::{AudioDesc, ConnectionDesc, MicrophoneDesc, Switch};
use bridgevr::drain::drain_time;
use bridgevr::pipeline::{
    host_eye_resolution, pipeline_components, plan_from_settings, plan_pipeline, PipelinePlan,
    PlanError,
};
use bridgevr::session::{
    reconnect_timeout_ns, AttemptOutcome, Component, HandshakeError, HeartbeatAction,
    ReconnectLoop, Session, SessionPhase,
};
use bridgevr::shutdown_signal::{effective_signal, BusRecv, ShutdownBus, ShutdownSignal};

#[test]
fn old_client_never_reaches_active_pipeline() {
    let mut s = Session::new();
    assert!(s.begin_discovery());
    assert_eq!(
        s.on_handshake(2, 3),
        Err(HandshakeError::VersionTooOld { offered: 2, required: 3 })
    );
    assert_eq!(s.phase(), SessionPhase::Discovering);
    assert!(!s.track(Component::Compositor));
    assert!(!s.activate());
    assert_eq!(s.phase(), SessionPhase::Discovering);
    assert!(s.stop_list().is_empty());
}

#[test]
fn handshake_outside_discovery_is_refused() {
    let mut s = Session::new();
    assert_eq!(s.on_handshake(5, 3), Err(HandshakeError::NotDiscovering));
    assert_eq!(s.phase(), SessionPhase::Idle);
}

#[test]
fn session_runs_through_every_phase() {
    let mut s = Session::new();
    assert!(s.begin_discovery());
    assert_eq!(s.on_handshake(3, 3), Ok(()));
    assert_eq!(s.phase(), SessionPhase::Handshaking);
    assert!(s.track(Component::ConnectionManager));
    assert!(s.track(Component::VideoEncoder(0)));
    assert!(s.activate());
    assert_eq!(s.phase(), SessionPhase::PipelineActive);
    assert_eq!(s.on_heartbeat(BusRecv::Empty), HeartbeatAction::KeepWaiting);
    assert_eq!(
        s.on_heartbeat(BusRecv::Signal(ShutdownSignal::ClientDisconnected)),
        HeartbeatAction::Drain { signal: ShutdownSignal::ClientDisconnected, notify_client: false }
    );
    assert_eq!(s.phase(), SessionPhase::Draining);
    // Nothing is released before every component has been asked to stop.
    assert!(s.release().is_empty());
    assert_eq!(
        s.request_stops(),
        vec![Component::ConnectionManager, Component::VideoEncoder(0)]
    );
    assert_eq!(
        s.release(),
        vec![Component::ConnectionManager, Component::VideoEncoder(0)]
    );
    assert_eq!(s.phase(), SessionPhase::Idle);
    assert_eq!(s.signal(), Some(ShutdownSignal::ClientDisconnected));
    assert!(s.stop_list().is_empty());
}

#[test]
fn disconnected_bus_counts_as_backend_shutdown() {
    let mut s = Session::new();
    s.begin_discovery();
    s.on_handshake(1, 0).unwrap();
    s.activate();
    assert_eq!(
        s.on_heartbeat(BusRecv::Disconnected),
        HeartbeatAction::Drain { signal: ShutdownSignal::BackendShutdown, notify_client: true }
    );
    assert_eq!(s.on_heartbeat(BusRecv::Empty), HeartbeatAction::NotActive);
}

#[test]
fn failed_setup_drains_started_components() {
    let mut s = Session::new();
    s.begin_discovery();
    s.on_handshake(1, 1).unwrap();
    s.track(Component::Compositor);
    assert!(s.abort());
    assert_eq!(s.phase(), SessionPhase::Draining);
    assert_eq!(s.request_stops(), vec![Component::Compositor]);
    assert_eq!(s.release(), vec![Component::Compositor]);
    assert_eq!(s.signal(), None);
}

#[test]
fn shutdown_bus_keeps_send_order() {
    let mut bus = ShutdownBus::new();
    bus.add_sender();
    bus.add_sender();
    bus.send(ShutdownSignal::ClientDisconnected);
    bus.send(ShutdownSignal::BackendShutdown);
    assert_eq!(bus.try_recv(), BusRecv::Signal(ShutdownSignal::ClientDisconnected));
    assert_eq!(bus.try_recv(), BusRecv::Signal(ShutdownSignal::BackendShutdown));
    assert_eq!(bus.try_recv(), BusRecv::Empty);
    bus.drop_sender();
    assert_eq!(bus.try_recv(), BusRecv::Empty);
    bus.drop_sender();
    assert_eq!(bus.try_recv(), BusRecv::Disconnected);
}

#[test]
fn shutdown_bus_delivers_signals_left_by_departed_senders() {
    let mut bus = ShutdownBus::new();
    bus.add_sender();
    bus.send(ShutdownSignal::BackendShutdown);
    bus.drop_sender();
    assert_eq!(bus.try_recv(), BusRecv::Signal(ShutdownSignal::BackendShutdown));
    assert_eq!(bus.try_recv(), BusRecv::Disconnected);
}

#[test]
fn effective_signal_of_each_bus_result() {
    assert_eq!(effective_signal(BusRecv::Empty), None);
    assert_eq!(
        effective_signal(BusRecv::Disconnected),
        Some(ShutdownSignal::BackendShutdown)
    );
    assert_eq!(
        effective_signal(BusRecv::Signal(ShutdownSignal::ClientDisconnected)),
        Some(ShutdownSignal::ClientDisconnected)
    );
}

#[test]
fn reconnect_deadline_restarts_on_disconnect_and_then_expires() {
    let mut l = ReconnectLoop::new(0, 1_000);
    assert!(l.should_attempt(999));
    assert!(!l.should_attempt(1_000));
    l.after_attempt(AttemptOutcome::Ended(ShutdownSignal::ClientDisconnected), BusRecv::Empty, 500);
    assert_eq!(l.deadline, 1_500);
    assert!(l.should_attempt(1_200));
    l.after_attempt(AttemptOutcome::Failed, BusRecv::Empty, 1_300);
    assert!(l.should_attempt(1_499));
    assert!(!l.should_attempt(1_500));
    l.after_attempt(AttemptOutcome::Failed, BusRecv::Empty, 1_600);
    assert!(!l.should_attempt(1_600));
}

#[test]
fn reconnect_loop_stops_for_good_on_backend_shutdown() {
    let mut l = ReconnectLoop::new(0, 1_000);
    l.after_attempt(AttemptOutcome::Ended(ShutdownSignal::BackendShutdown), BusRecv::Empty, 10);
    assert!(!l.should_attempt(11));

    let mut l = ReconnectLoop::new(0, 1_000);
    l.after_attempt(AttemptOutcome::Failed, BusRecv::Disconnected, 10);
    assert!(l.finished);

    let mut l = ReconnectLoop::new(0, 1_000);
    l.after_attempt(
        AttemptOutcome::Failed,
        BusRecv::Signal(ShutdownSignal::BackendShutdown),
        10,
    );
    assert!(l.finished);

    let mut l = ReconnectLoop::new(0, 1_000);
    l.after_attempt(
        AttemptOutcome::Failed,
        BusRecv::Signal(ShutdownSignal::ClientDisconnected),
        10,
    );
    assert!(!l.finished);
    assert_eq!(l.deadline, 1_000);
}

#[test]
fn reconnect_deadline_saturates() {
    let l = ReconnectLoop::new(u64::MAX - 5, 1_000);
    assert_eq!(l.deadline, u64::MAX);
}

#[test]
fn reconnect_timeout_from_settings() {
    assert_eq!(reconnect_timeout_ns(None), 1_000_000_000);
    assert_eq!(reconnect_timeout_ns(Some(5)), 5_000_000_000);
    assert_eq!(reconnect_timeout_ns(Some(u64::MAX)), u64::MAX);
}

#[test]
fn fan_out_drain_takes_the_longest_stop_time() {
    let delays = vec![30, 10, 20];
    assert_eq!(drain_time(&delays, true), 30);
    assert_eq!(drain_time(&delays, false), 60);
    assert_eq!(drain_time(&Vec::new(), true), 0);
    let big = vec![u64::MAX, u64::MAX];
    assert_eq!(drain_time(&big, true), u64::MAX as u128);
    assert_eq!(drain_time(&big, false), 2 * (u64::MAX as u128));
}

#[test]
fn pipeline_ports_are_consecutive() {
    let plan = plan_pipeline(3, true, true, 9944).unwrap();
    assert_eq!(
        plan,
        PipelinePlan {
            video_ports: vec![9944, 9945, 9946],
            game_audio_port: Some(9947),
            microphone_port: Some(9944),
        }
    );
    let plan = plan_pipeline(2, false, false, 100).unwrap();
    assert_eq!(plan.video_ports, vec![100, 101]);
    assert_eq!(plan.game_audio_port, None);
    assert_eq!(plan.microphone_port, None);
}

#[test]
fn pipeline_ports_at_the_top_of_the_range() {
    assert!(plan_pipeline(1, false, false, 65535).is_ok());
    assert_eq!(plan_pipeline(1, true, false, 65535), Err(PlanError::PortsExhausted));
    assert_eq!(plan_pipeline(2, false, false, 65535), Err(PlanError::PortsExhausted));
    assert_eq!(plan_pipeline(u64::MAX, false, false, 0), Err(PlanError::PortsExhausted));
}

#[test]
fn pipeline_plan_from_settings() {
    let connection = ConnectionDesc { client_ip: None, starting_data_port: 9000 };
    let audio = AudioDesc {
        loopback_device_index: Switch::Enabled(None),
        microphone: Switch::Disabled,
        max_packet_size: 1024,
        max_latency_ms: 50,
    };
    let plan = plan_from_settings(&connection, &audio, 2).unwrap();
    assert_eq!(plan.video_ports, vec![9000, 9001]);
    assert_eq!(plan.game_audio_port, Some(9002));
    assert_eq!(plan.microphone_port, None);

    let audio = AudioDesc {
        loopback_device_index: Switch::Disabled,
        microphone: Switch::Enabled(MicrophoneDesc { client_device_index: None, server_device_index: 1 }),
        max_packet_size: 1024,
        max_latency_ms: 50,
    };
    let plan = plan_from_settings(&connection, &audio, 1).unwrap();
    assert_eq!(plan.game_audio_port, None);
    assert_eq!(plan.microphone_port, Some(9000));
}

#[test]
fn pipeline_components_in_start_order() {
    assert_eq!(
        pipeline_components(2, true, true),
        vec![
            Component::ConnectionManager,
            Component::Compositor,
            Component::VideoEncoder(0),
            Component::VideoEncoder(1),
            Component::GameAudioRecorder,
            Component::MicrophonePlayer,
        ]
    );
    assert_eq!(
        pipeline_components(0, false, false),
        vec![Component::ConnectionManager, Component::Compositor]
    );
}

#[test]
fn host_eye_resolution_prefers_settings_then_client_then_default() {
    assert_eq!(host_eye_resolution(Some((1, 2)), Some((3, 4))), (1, 2));
    assert_eq!(host_eye_resolution(None, Some((3, 4))), (3, 4));
    assert_eq!(host_eye_resolution(None, None), (640, 720));
}

#[test]
fn switch_into_option() {
    assert_eq!(Switch::Enabled(4).into_option(), Some(4));
    assert_eq!(Switch::<u32>::Disabled.into_option(), None);
}
