//! The request handler, sessions, and ordered processing.

use undertone::engine::Daemon;
use undertone::events::EventType;
use undertone::messages::{ErrorInfo, Method, Reply, Request};
use undertone::mixer::MixType;
use undertone::server_logic::handle_request;
use undertone::session::ClientSession;

#[test]
fn test_error_info_new() {
    let error = ErrorInfo::new(500, "Internal server error");
    assert_eq!(error.code, 500);
    assert_eq!(error.message, "Internal server error");
}

#[test]
fn set_channel_volume_acknowledges_clamped_value() {
    // A volume above full scale is clamped, and the clamped value is
    // acknowledged and forwarded in the command.
    let daemon = Daemon::init();
    let snapshot = daemon.snapshot();
    let hr = handle_request(
        &Method::SetChannelVolume { channel: "music".into(), mix: MixType::Stream, volume: 1500 },
        &snapshot,
    );
    match hr.response {
        Ok(Reply::VolumeAck { volume }) => assert_eq!(volume, 1000),
        other => panic!("unexpected response: {:?}", other),
    }
    assert!(hr.command.is_some());
}

#[test]
fn set_channel_volume_acknowledges_exact_value() {
    let daemon = Daemon::init();
    let snapshot = daemon.snapshot();
    let hr = handle_request(
        &Method::SetChannelVolume { channel: "music".into(), mix: MixType::Stream, volume: 600 },
        &snapshot,
    );
    match hr.response {
        Ok(Reply::VolumeAck { volume }) => assert_eq!(volume, 600),
        other => panic!("unexpected response: {:?}", other),
    }
}

#[test]
fn negative_volume_is_clamped_to_zero() {
    let daemon = Daemon::init();
    let snapshot = daemon.snapshot();
    let hr = handle_request(
        &Method::SetChannelVolume { channel: "voice".into(), mix: MixType::Monitor, volume: -5 },
        &snapshot,
    );
    match hr.response {
        Ok(Reply::VolumeAck { volume }) => assert_eq!(volume, 0),
        other => panic!("unexpected response: {:?}", other),
    }
}

#[test]
fn unknown_channel_mute_is_a_404_with_no_command() {
    // Scenario: SetChannelMute on an unknown channel returns the 404
    // with its message, and no command, so nothing else happens.
    let daemon = Daemon::init();
    let snapshot = daemon.snapshot();
    let hr = handle_request(
        &Method::SetChannelMute { channel: "unknown".into(), mix: MixType::Stream, muted: true },
        &snapshot,
    );
    match hr.response {
        Err(e) => {
            assert_eq!(e.code, 404);
            assert_eq!(e.message, "Channel not found: unknown");
        },
        other => panic!("unexpected response: {:?}", other),
    }
    assert!(hr.command.is_none());
}

#[test]
fn device_status_reports_absent_device() {
    let daemon = Daemon::init();
    let snapshot = daemon.snapshot();
    let hr = handle_request(&Method::GetDeviceStatus, &snapshot);
    match hr.response {
        Ok(Reply::DeviceStatus { connected, serial }) => {
            assert!(!connected);
            assert!(serial.is_none());
        },
        other => panic!("unexpected response: {:?}", other),
    }
}

#[test]
fn get_channel_answers_from_the_snapshot() {
    let daemon = Daemon::init();
    let snapshot = daemon.snapshot();
    let hr = handle_request(&Method::GetChannel { name: "browser".into() }, &snapshot);
    match hr.response {
        Ok(Reply::Channel(c)) => assert_eq!(c.config.name, "browser"),
        other => panic!("unexpected response: {:?}", other),
    }
    let hr = handle_request(&Method::GetChannel { name: "nope".into() }, &snapshot);
    match hr.response {
        Err(e) => assert_eq!(e.code, 404),
        other => panic!("unexpected response: {:?}", other),
    }
}

#[test]
fn responses_come_back_in_request_order() {
    // Requests from a single client receive their responses in
    // request-id order: position k answers request k.
    let mut daemon = Daemon::init();
    let requests = vec![
        Request { id: 10, method: Method::GetState },
        Request {
            id: 11,
            method: Method::SetChannelVolume {
                channel: "music".into(),
                mix: MixType::Stream,
                volume: 700,
            },
        },
        Request { id: 12, method: Method::GetChannels },
        Request { id: 13, method: Method::GetChannel { name: "music".into() } },
    ];
    let responses = daemon.process_requests(&requests);
    assert_eq!(responses.len(), 4);
    for (k, response) in responses.iter().enumerate() {
        assert_eq!(response.id, requests[k].id);
    }
    // the volume write at position 1 is visible to the read at position 3
    match &responses[3].result {
        Ok(Reply::Channel(c)) => assert_eq!(c.stream_volume, 700),
        other => panic!("unexpected response: {:?}", other),
    }
}

#[test]
fn session_counts_pending_requests_for_one_shot_clients() {
    let mut session = ClientSession::new();
    assert!(!session.should_close());
    session.on_request_received();
    session.on_request_received();
    session.on_eof();
    // still draining
    assert!(!session.should_close());
    session.on_response_sent();
    assert!(!session.should_close());
    session.on_response_sent();
    assert!(session.should_close());
}

#[test]
fn empty_subscription_set_receives_everything() {
    let session = ClientSession::new();
    assert!(session.wants(EventType::ChannelVolumeChanged));
    assert!(session.wants(EventType::Error));
}

#[test]
fn subscriptions_filter_events() {
    let mut session = ClientSession::new();
    session.subscribe(&vec![EventType::DeviceConnected, EventType::DeviceDisconnected]);
    assert!(session.wants(EventType::DeviceConnected));
    assert!(!session.wants(EventType::ChannelVolumeChanged));
    session.unsubscribe(&vec![EventType::DeviceConnected]);
    assert!(!session.wants(EventType::DeviceConnected));
    assert!(session.wants(EventType::DeviceDisconnected));
}
