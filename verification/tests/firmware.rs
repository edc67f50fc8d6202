use mortimmy::firmware::audio_out::{chunk_duration_ms, sync_audio, AudioOutputTask, AudioPlayback, AudioRoute, StreamAction};
use mortimmy::firmware::control::ControlLoop;
use mortimmy::firmware::deploy::{deploy_target_audio_controller, deploy_target_motion_controller};
use mortimmy::firmware::drive::{DriveOutputPlan, DriveTrainState};
use mortimmy::firmware::link_session::{link_session_step, link_wait_ms, LinkEvent};
use mortimmy::firmware::scaffold::{
    active_controller_capabilities, audio_route_label, mode_label, transport_label, FirmwareScaffold,
};
use mortimmy::firmware::trellis::{DriverPadEventKind, PadEvent, PadIndex};
use mortimmy::firmware::ultrasonic::{
    poll_ultrasonic_sensor, previous_range_sample, range_sensor_label, should_log_range_sample, UltrasonicLog, UltrasonicReading,
};
use mortimmy::firmware::usb::TransportClass;
use mortimmy::protocol::{
    AudioChunkCommand, AudioCommandResponse, AudioEncoding, ControlMessage, ControllerCapabilities,
    ControllerEvent, ControllerMessage, ControllerResponse, ControllerResponsePayload,
    DesiredStateCommand, DriveCommand, HostMessage, ParameterKey, ParameterUpdate, PadEventKind,
    RangeSensorPosition, RangeTelemetry, ReportConfig, ReportKind, ReportMessage, ReportPayload,
    RequestId, RequestMessage, RequestOutcome, RequestPayload, ServoCommand, TrellisPadTelemetry,
    WireMessage, CAPABILITY_AUDIO_OUTPUT, CAPABILITY_BATTERY_MONITOR, CAPABILITY_DRIVE,
    CAPABILITY_RANGE_SENSOR, CAPABILITY_SERVO, CAPABILITY_TEXT_DISPLAY,
};
use mortimmy::samples::AUDIO_CHUNK_CAPACITY_SAMPLES;
use mortimmy::units::{CoreError, Millimeters, Mode, PwmTicks, ServoTicks};

fn desired(mode: Mode, left: i16, right: i16, pan: u16, tilt: u16) -> DesiredStateCommand {
    DesiredStateCommand::new(
        mode,
        DriveCommand { left: PwmTicks(left), right: PwmTicks(right) },
        ServoCommand { pan: ServoTicks(pan), tilt: ServoTicks(tilt) },
    )
}

fn request(id: u16, payload: RequestPayload) -> HostMessage {
    HostMessage::Request(RequestMessage { request_id: RequestId(id), payload })
}

#[test]
fn default_scaffold_reports_safe_bring_up_defaults() {
    let report = FirmwareScaffold::default().bring_up_report();

    assert_eq!(report.board_name, "Pimoroni Pico LiPo 2");
    assert_eq!(report.board_mcu, "RP2350B");
    assert_eq!(report.flash_bytes, 16 * 1024 * 1024);
    assert_eq!(report.psram_bytes, 8 * 1024 * 1024);
    assert_eq!(report.transport, "usb-cdc");
    assert_eq!(report.control_mode, "teleop");
    assert_eq!(report.audio_route, "host-waveform-bridge");
    assert_eq!(report.audio_chunk_samples, 240);
    assert!(!report.trellis_enabled);
    assert!(!report.ultrasonic_enabled);
    assert!(!report.battery_monitor_enabled);
}

#[test]
fn bring_up_labels_are_stable() {
    assert_eq!(mode_label(Mode::Teleop), "teleop");
    assert_eq!(transport_label(TransportClass::UartFallback), "uart-fallback");
    assert_eq!(audio_route_label(AudioRoute::LocalSynthesis), "local-synthesis");
}

#[test]
fn deploy_metadata_matches_bring_up_defaults() {
    let report = FirmwareScaffold::default().bring_up_report();
    let motion = deploy_target_motion_controller();

    assert_eq!(motion.board_name, report.board_name);
    assert_eq!(motion.board_mcu, report.board_mcu);
    assert_eq!(motion.artifact.manifest_path, "firmware/rp2350/Cargo.toml");
    assert_eq!(motion.artifact.cargo_features, &["board-motion-controller"]);
    assert!(motion.artifact.cargo_no_default_features);
    assert_eq!(motion.artifact.cargo_target_dir, "target/mortimmy-rp2350-motion-controller");
    assert_eq!(motion.artifact.target_triple, "thumbv8m.main-none-eabihf");
    assert_eq!(motion.probe.chip, "RP235x");
    assert_eq!(motion.uf2.family_name, "RP2350_ARM_S");
    assert_eq!(motion.uf2.family_id, 0xE48B_FF59);
    assert_eq!(motion.uf2.absolute_block_location, Some(0x10FF_FF00));
    assert_eq!(motion.bootsel.button_name, "BOOTSEL");
    assert!(motion.bootsel.volume_labels.contains(&"RP2350"));
}

#[test]
fn deploy_targets_keep_controller_feature_bundles_isolated() {
    let motion = deploy_target_motion_controller();
    let audio = deploy_target_audio_controller();
    assert_eq!(motion.id, "motion-controller");
    assert_eq!(audio.id, "audio-controller");
    assert_eq!(motion.artifact.cargo_features, &["board-motion-controller"]);
    assert_eq!(audio.artifact.cargo_features, &["board-audio-controller"]);
    assert_ne!(motion.artifact.cargo_target_dir, audio.artifact.cargo_target_dir);
}

#[test]
fn motion_controller_feature_bundle_matches_motor_and_ultrasonic_scope() {
    let capabilities = active_controller_capabilities();

    assert!(capabilities.contains(ControllerCapabilities::from_bits(CAPABILITY_DRIVE)));
    assert!(capabilities.contains(ControllerCapabilities::from_bits(CAPABILITY_SERVO)));
    assert!(capabilities.contains(ControllerCapabilities::from_bits(CAPABILITY_RANGE_SENSOR)));
    assert!(capabilities.contains(ControllerCapabilities::from_bits(CAPABILITY_TEXT_DISPLAY)));
    assert!(!capabilities.contains(ControllerCapabilities::from_bits(CAPABILITY_BATTERY_MONITOR)));
    assert!(!capabilities.contains(ControllerCapabilities::from_bits(CAPABILITY_AUDIO_OUTPUT)));
}

#[test]
fn desired_state_message_updates_control_state_and_emits_control_applied_report() {
    let mut scaffold = FirmwareScaffold::default();

    let response = scaffold.handle_host_message(HostMessage::Control(ControlMessage::new(
        7,
        desired(Mode::Teleop, 320, -240, 24, 36),
    )));

    assert_eq!(scaffold.link_rx.last_message_kind, Some("control"));
    assert_eq!(scaffold.link_tx.last_message_kind, Some("control-applied"));
    assert_eq!(scaffold.control.mode, Mode::Teleop);
    assert_eq!(
        response,
        Some(ControllerMessage::Report(ReportMessage {
            payload: ReportPayload::ControlApplied(scaffold.control_applied_report(7)),
        }))
    );
}

#[test]
fn range_measurements_are_reported_as_dedicated_messages() {
    let mut scaffold = FirmwareScaffold::default();
    let left = scaffold.record_range_measurement(RangeSensorPosition::ForwardLeft, Millimeters(287), 100);
    let right = scaffold.record_range_measurement(RangeSensorPosition::ForwardRight, Millimeters(451), 95);

    assert_eq!(
        left,
        ControllerMessage::Report(ReportMessage {
            payload: ReportPayload::Range(RangeTelemetry {
                sensor: RangeSensorPosition::ForwardLeft,
                distance_mm: Millimeters(287),
                quality: 100,
            }),
        })
    );
    assert_eq!(
        right,
        ControllerMessage::Report(ReportMessage {
            payload: ReportPayload::Range(RangeTelemetry {
                sensor: RangeSensorPosition::ForwardRight,
                distance_mm: Millimeters(451),
                quality: 95,
            }),
        })
    );
}

#[test]
fn configure_range_reports_exposes_latest_sample_as_background_message() {
    let mut scaffold = FirmwareScaffold::default();
    scaffold.record_range_measurement(RangeSensorPosition::ForwardLeft, Millimeters(287), 100);

    let response = scaffold.handle_host_message(request(
        9,
        RequestPayload::ConfigureReports(ReportConfig {
            report: ReportKind::Range,
            min_interval_ms: 250,
            emit_on_change: true,
        }),
    ));

    assert!(matches!(
        response,
        Some(ControllerMessage::Response(response))
            if response.request_id == RequestId(9)
                && matches!(
                    response.payload,
                    ControllerResponsePayload::ReportConfig(RequestOutcome { error: None })
                )
    ));
    assert_eq!(
        scaffold.next_background_message(250),
        Some(ControllerMessage::Report(ReportMessage {
            payload: ReportPayload::Range(RangeTelemetry {
                sensor: RangeSensorPosition::ForwardLeft,
                distance_mm: Millimeters(287),
                quality: 100,
            }),
        }))
    );
}

#[test]
fn enter_fault_state_clears_control_audio_and_trellis() {
    let mut scaffold = FirmwareScaffold::default();
    scaffold.handle_host_message(HostMessage::Control(ControlMessage::new(
        1,
        desired(Mode::Teleop, 200, 200, 24, 36),
    )));
    scaffold.audio.queued_chunks = 2;
    scaffold.trellis.apply_led_mask(0x00ff);

    scaffold.enter_fault_state(Some(CoreError::LinkTimedOut));

    assert_eq!(scaffold.control.mode, Mode::Fault);
    assert_eq!(scaffold.control.drive.left_pwm.0, 0);
    assert_eq!(scaffold.control.drive.right_pwm.0, 0);
    assert_eq!(scaffold.audio.queued_chunks, 0);
    assert_eq!(scaffold.trellis.led_mask, 0);
    assert_eq!(scaffold.control.last_error, Some(CoreError::LinkTimedOut));
}

#[test]
fn parameter_updates_reconfigure_subsystems() {
    let mut scaffold = FirmwareScaffold::default();

    scaffold.handle_host_message(request(
        1,
        RequestPayload::SetParam(ParameterUpdate { key: ParameterKey::AudioChunkSamples, value: 120 }),
    ));
    scaffold.handle_host_message(request(
        2,
        RequestPayload::SetParam(ParameterUpdate { key: ParameterKey::TrellisBrightness, value: 48 }),
    ));

    assert_eq!(scaffold.audio.config.chunk_samples, 120);
    assert_eq!(scaffold.trellis.config.brightness, 48);
    assert_eq!(scaffold.control.last_error, None);
}

#[test]
fn invalid_parameter_update_surfaces_status_error() {
    let mut scaffold = FirmwareScaffold::default();

    let response = scaffold.handle_host_message(request(
        3,
        RequestPayload::SetParam(ParameterUpdate {
            key: ParameterKey::AudioChunkSamples,
            value: (AUDIO_CHUNK_CAPACITY_SAMPLES + 1) as i32,
        }),
    ));

    assert_eq!(scaffold.control.last_error, Some(CoreError::InvalidCommand));
    assert_eq!(
        response,
        Some(ControllerMessage::Response(ControllerResponse {
            request_id: RequestId(3),
            payload: ControllerResponsePayload::Parameter(RequestOutcome::from_error(CoreError::InvalidCommand)),
        }))
    );
}

#[test]
fn full_size_audio_chunk_is_accepted_and_reported() {
    let mut scaffold = FirmwareScaffold::default();
    let mut samples = heapless::Vec::<i16, 240>::new();
    for sample in 0..AUDIO_CHUNK_CAPACITY_SAMPLES {
        samples.push(sample as i16).unwrap();
    }

    let response = scaffold.handle_host_message(request(
        4,
        RequestPayload::PlayAudio(AudioChunkCommand {
            utterance_id: 1,
            chunk_index: 0,
            sample_rate_hz: 24_000,
            channels: 1,
            encoding: AudioEncoding::SignedPcm16Le,
            is_final_chunk: true,
            samples,
        }),
    ));

    assert_eq!(scaffold.audio.queued_chunks, 1);
    assert_eq!(
        response,
        Some(ControllerMessage::Response(ControllerResponse {
            request_id: RequestId(4),
            payload: ControllerResponsePayload::Audio(AudioCommandResponse {
                status: scaffold.audio_status_telemetry(),
                error: None,
            }),
        }))
    );
}

#[test]
fn wire_message_status_command_roundtrips_to_status_response() {
    let mut scaffold = FirmwareScaffold::default();

    let response = scaffold.apply_wire_message(WireMessage::Host(request(5, RequestPayload::GetControllerStatus)));

    assert_eq!(
        response,
        Some(WireMessage::Controller(ControllerMessage::Response(ControllerResponse {
            request_id: RequestId(5),
            payload: ControllerResponsePayload::ControllerStatus(scaffold.controller_status()),
        })))
    );
}

#[test]
fn trellis_events_are_converted_into_protocol_events() {
    let mut scaffold = FirmwareScaffold::default();

    let message = scaffold.record_trellis_event(PadEvent {
        index: PadIndex::new(4).unwrap(),
        kind: DriverPadEventKind::Pressed,
    });

    assert_eq!(
        message,
        ControllerMessage::Event(ControllerEvent::TrellisPad(TrellisPadTelemetry {
            pad_index: 4,
            event: PadEventKind::Pressed,
        }))
    );
    assert_eq!(scaffold.link_tx.last_message_kind, Some("trellis-pad"));
}

#[test]
fn applies_drive_command_inside_limits() {
    let mut control = ControlLoop::default();
    control.apply_drive(DriveCommand { left: PwmTicks(250), right: PwmTicks(-300) });

    assert_eq!(control.drive.left_pwm.0, 250);
    assert_eq!(control.drive.right_pwm.0, -300);
}

#[test]
fn clamps_servo_steps_to_configured_limit() {
    let mut control = ControlLoop::default();
    control.apply_servo(ServoCommand { pan: ServoTicks(120), tilt: ServoTicks(100) });

    assert_eq!(control.servo.pan, ServoTicks(48));
    assert_eq!(control.servo.tilt, ServoTicks(48));
}

#[test]
fn desired_state_in_fault_restores_safe_stopped_state() {
    let mut control = ControlLoop::default();
    control.apply_drive(DriveCommand { left: PwmTicks(400), right: PwmTicks(400) });

    control.apply_desired_state(desired(Mode::Fault, 250, 250, 12, 18));

    assert_eq!(control.mode, Mode::Fault);
    assert_eq!(control.drive.left_pwm.0, 0);
    assert_eq!(control.drive.right_pwm.0, 0);
    assert_eq!(control.servo.pan, ServoTicks(0));
    assert_eq!(control.servo.tilt, ServoTicks(0));
}

#[test]
fn desired_state_keeps_stationary_teleop_distinct_from_fault() {
    let mut control = ControlLoop::default();

    control.apply_desired_state(desired(Mode::Teleop, 0, 0, 24, 36));

    assert_eq!(control.mode, Mode::Teleop);
    assert_eq!(control.drive.left_pwm.0, 0);
    assert_eq!(control.drive.right_pwm.0, 0);
    assert_eq!(control.servo.pan, ServoTicks(24));
    assert_eq!(control.servo.tilt, ServoTicks(36));
}

#[test]
fn applies_limit_parameter_updates() {
    let mut control = ControlLoop::default();

    assert!(control
        .apply_limit_parameter(ParameterUpdate { key: ParameterKey::LinkTimeoutMs, value: 500 })
        .unwrap());
    assert_eq!(control.limits.link_timeout_ms.0, 500);
}

#[test]
fn rejects_invalid_limit_parameter_updates() {
    let mut control = ControlLoop::default();

    assert_eq!(
        control.apply_limit_parameter(ParameterUpdate { key: ParameterKey::MaxDrivePwm, value: -1 }),
        Err(CoreError::InvalidCommand)
    );
}

#[test]
fn apply_command_marks_current_limit_when_clamped() {
    let mut state = DriveTrainState::default();

    state.apply_command(DriveCommand { left: PwmTicks(1_200), right: PwmTicks(-250) }, PwmTicks(1_000));

    assert_eq!(state.left_pwm, PwmTicks(1_000));
    assert_eq!(state.right_pwm, PwmTicks(-250));
    assert!(state.current_limit_hit);
}

#[test]
fn apply_to_driver_routes_state_through_motor_driver() {
    let mut state = DriveTrainState::default();

    state.apply_command(DriveCommand { left: PwmTicks(500), right: PwmTicks(-300) }, PwmTicks(1_000));

    assert_eq!(
        state.output_plan(PwmTicks(1_000)),
        DriveOutputPlan::SetOutputs { left: PwmTicks(500), right: PwmTicks(-300), full_scale: 1_000 }
    );
}

#[test]
fn apply_to_driver_stops_when_state_is_stationary() {
    let state = DriveTrainState::stopped();

    assert_eq!(state.output_plan(PwmTicks(1_000)), DriveOutputPlan::StopAll);
}

#[test]
fn moving_state_with_zero_limit_has_no_drive_range() {
    let state = DriveTrainState { left_pwm: PwmTicks(10), right_pwm: PwmTicks(0), current_limit_hit: false };

    assert_eq!(state.output_plan(PwmTicks(0)), DriveOutputPlan::InvalidDriveRange);
}

#[test]
fn negative_limit_clamps_by_its_magnitude() {
    let mut state = DriveTrainState::default();

    state.apply_command(DriveCommand { left: PwmTicks(-900), right: PwmTicks(300) }, PwmTicks(-500));

    assert_eq!(state.left_pwm, PwmTicks(-500));
    assert_eq!(state.right_pwm, PwmTicks(300));
    assert!(state.current_limit_hit);
}

#[test]
fn ultrasonic_readings_record_and_log_only_real_changes() {
    let mut scaffold = FirmwareScaffold::new();
    let first = poll_ultrasonic_sensor(
        RangeSensorPosition::ForwardLeft,
        UltrasonicReading::Measured(Millimeters(500)),
        &mut scaffold,
    );
    let sample = RangeTelemetry { sensor: RangeSensorPosition::ForwardLeft, distance_mm: Millimeters(500), quality: 100 };
    assert_eq!(first, UltrasonicLog::Sample(sample));
    assert_eq!(previous_range_sample(&scaffold, RangeSensorPosition::ForwardLeft), Some(sample));
    assert_eq!(previous_range_sample(&scaffold, RangeSensorPosition::ForwardRight), None);

    let small_move = poll_ultrasonic_sensor(
        RangeSensorPosition::ForwardLeft,
        UltrasonicReading::Measured(Millimeters(599)),
        &mut scaffold,
    );
    assert_eq!(small_move, UltrasonicLog::Quiet);
    let big_move = poll_ultrasonic_sensor(
        RangeSensorPosition::ForwardLeft,
        UltrasonicReading::Measured(Millimeters(400)),
        &mut scaffold,
    );
    assert!(matches!(big_move, UltrasonicLog::Sample(_)));

    let beyond = poll_ultrasonic_sensor(
        RangeSensorPosition::ForwardLeft,
        UltrasonicReading::OutOfRange(Millimeters(400)),
        &mut scaffold,
    );
    let far = RangeTelemetry { sensor: RangeSensorPosition::ForwardLeft, distance_mm: Millimeters(400), quality: 0 };
    assert_eq!(beyond, UltrasonicLog::OutOfRange(far));

    assert_eq!(
        poll_ultrasonic_sensor(RangeSensorPosition::ForwardRight, UltrasonicReading::EchoTimeout, &mut scaffold),
        UltrasonicLog::Quiet
    );
    assert_eq!(previous_range_sample(&scaffold, RangeSensorPosition::ForwardRight), None);
    assert_eq!(
        poll_ultrasonic_sensor(RangeSensorPosition::ForwardRight, UltrasonicReading::GpioFailed, &mut scaffold),
        UltrasonicLog::GpioFailed
    );
}

#[test]
fn range_log_threshold_and_labels() {
    let at = |mm: u16, quality: u8| RangeTelemetry { sensor: RangeSensorPosition::ForwardRight, distance_mm: Millimeters(mm), quality };
    assert!(should_log_range_sample(None, at(10, 100)));
    assert!(!should_log_range_sample(Some(at(200, 100)), at(101, 100)));
    assert!(should_log_range_sample(Some(at(200, 100)), at(100, 100)));
    assert!(should_log_range_sample(Some(at(200, 100)), at(200, 0)));
    assert_eq!(range_sensor_label(RangeSensorPosition::ForwardLeft), "forward-left");
    assert_eq!(range_sensor_label(RangeSensorPosition::ForwardRight), "forward-right");
}

#[test]
fn audio_sync_starts_streams_retires_chunks_and_stops_when_drained() {
    let mut audio = AudioOutputTask::new();
    audio.queued_chunks = 3;
    let mut playback = AudioPlayback::new();
    let stream = audio.stream_config();
    let d = chunk_duration_ms(&audio);

    assert_eq!(sync_audio(&mut playback, &mut audio, 1_000), vec![StreamAction::Start(stream)]);
    assert_eq!(playback.active_stream, Some(stream));
    assert_eq!(audio.queued_chunks, 3);

    assert!(sync_audio(&mut playback, &mut audio, 1_000 + d).is_empty());
    assert_eq!(audio.queued_chunks, 2);
    assert_eq!(playback.last_progress_ms, 1_000 + d);

    assert_eq!(sync_audio(&mut playback, &mut audio, 1_000 + 10 * d), vec![StreamAction::Stop]);
    assert_eq!(audio.queued_chunks, 0);
    assert_eq!(playback.active_stream, None);

    assert!(sync_audio(&mut playback, &mut audio, 50_000).is_empty());
    assert_eq!(playback.last_progress_ms, 50_000);
}

#[test]
fn audio_sync_restarts_a_stream_with_other_parameters() {
    let mut audio = AudioOutputTask::new();
    audio.queued_chunks = 1;
    let mut other = audio.stream_config();
    other.sample_rate_hz = 48_000;
    let mut playback = AudioPlayback { active_stream: Some(other), last_progress_ms: 0 };
    let actions = sync_audio(&mut playback, &mut audio, 10);
    assert_eq!(actions, vec![StreamAction::Stop, StreamAction::Start(audio.stream_config())]);
    assert_eq!(playback.last_progress_ms, 10);
}

#[test]
fn link_timeouts_and_io_failures_fault_the_board() {
    for event in [LinkEvent::TimedOut, LinkEvent::ReadFailed, LinkEvent::WriteFailed] {
        let mut scaffold = FirmwareScaffold::default();
        scaffold.handle_host_message(HostMessage::Control(ControlMessage::new(1, desired(Mode::Teleop, 320, -240, 24, 36))));
        assert_eq!(link_session_step(&mut scaffold, event, true), None);
        assert_eq!(scaffold.control.mode, Mode::Fault);
        assert_eq!(scaffold.control.last_error, Some(CoreError::LinkTimedOut));
        assert_eq!(scaffold.control.drive.command(), DriveCommand { left: PwmTicks(0), right: PwmTicks(0) });
    }
}

#[test]
fn link_session_answers_messages_and_reports_status_when_sync_fails() {
    let mut scaffold = FirmwareScaffold::default();
    assert_eq!(link_wait_ms(&scaffold), scaffold.control.limits.link_timeout_ms.0 as u64);
    let reply = link_session_step(
        &mut scaffold,
        LinkEvent::Message(WireMessage::Host(HostMessage::Control(ControlMessage::new(
            3,
            desired(Mode::Teleop, 100, 100, 0, 0),
        )))),
        true,
    );
    assert_eq!(
        reply,
        Some(WireMessage::Controller(ControllerMessage::Report(ReportMessage {
            payload: ReportPayload::ControlApplied(scaffold.control_applied_report(3)),
        })))
    );
    let reply = link_session_step(
        &mut scaffold,
        LinkEvent::Message(WireMessage::Host(request(9, RequestPayload::SetParam(ParameterUpdate {
            key: ParameterKey::LinkTimeoutMs,
            value: 400,
        })))),
        false,
    );
    assert_eq!(
        reply,
        Some(WireMessage::Controller(ControllerMessage::Response(ControllerResponse {
            request_id: RequestId(9),
            payload: ControllerResponsePayload::ControllerStatus(scaffold.controller_status()),
        })))
    );
    assert_eq!(link_wait_ms(&scaffold), 400);
    let report = scaffold.control_applied_report(3);
    let ignored = link_session_step(
        &mut scaffold,
        LinkEvent::Message(WireMessage::Controller(ControllerMessage::Report(ReportMessage {
            payload: ReportPayload::ControlApplied(report),
        }))),
        true,
    );
    assert_eq!(ignored, None);
}
