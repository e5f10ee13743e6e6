//! End-to-end scenarios over the engine, the reconciler and the plans.

use undertone::channel::default_channels;
use undertone::engine::Daemon;
use undertone::events::EventOut;
use undertone::factory::FactoryRequest;
use undertone::graph::{GraphManager, LinkInfo, LinkState, NodeInfo, PortDirection, PortInfo};
use undertone::mixer::MixType;
use undertone::monitor::{ingest_global, GraphEvent, ObjectKind, RegistryGlobal};
use undertone::plan::{plan_channel_sinks, plan_channel_volume_filters, plan_mix_nodes};
use undertone::reconcile::{reconcile, ReconcileAction};

fn props(pairs: &[(&str, &str)]) -> Vec<(String, String)> {
    pairs.iter().map(|(k, v)| (k.to_string(), v.to_string())).collect()
}

/// Create a sink node with stereo monitor and playback ports.
fn add_sink_with_ports(g: &mut GraphManager, next_id: &mut u32, name: &str) -> u32 {
    let node_id = *next_id;
    *next_id += 1;
    g.add_node(NodeInfo {
        id: node_id,
        name: name.to_string(),
        description: None,
        media_class: Some("Audio/Sink".to_string()),
        application_name: None,
        binary_name: None,
        pid: None,
        device_serial: None,
        device_vendor_id: None,
        device_product_id: None,
        is_undertone_managed: name.starts_with("ch-") || name.starts_with("stream-")
            || name.starts_with("monitor-"),
    });
    for (port_name, dir, ch) in [
        ("monitor_FL", PortDirection::Output, "FL"),
        ("monitor_FR", PortDirection::Output, "FR"),
        ("playback_FL", PortDirection::Input, "FL"),
        ("playback_FR", PortDirection::Input, "FR"),
    ] {
        let pid = *next_id;
        *next_id += 1;
        g.add_port(PortInfo {
            id: pid,
            name: port_name.to_string(),
            direction: dir,
            node_id,
            channel: Some(ch.to_string()),
        });
    }
    node_id
}

/// Apply repair actions the way a healthy audio server would.
fn apply_actions(g: &mut GraphManager, actions: &[ReconcileAction], next_id: &mut u32) {
    for action in actions {
        match action {
            ReconcileAction::CreateSink(p) => {
                add_sink_with_ports(g, next_id, p.name.as_str());
            },
            ReconcileAction::CreateLink { output_node, output_port, input_node, input_port } => {
                let on = g.get_node_by_name(output_node.as_str()).expect("output node");
                let inn = g.get_node_by_name(input_node.as_str()).expect("input node");
                let op = g.get_port_by_name(on.id, output_port.as_str()).expect("output port");
                let ip = g.get_port_by_name(inn.id, input_port.as_str()).expect("input port");
                let lid = *next_id;
                *next_id += 1;
                g.add_link(LinkInfo {
                    id: lid,
                    output_node: on.id,
                    output_port: op.id,
                    input_node: inn.id,
                    input_port: ip.id,
                    state: LinkState::Active,
                    is_undertone_managed: true,
                });
            },
            _ => {},
        }
    }
}

#[test]
fn cold_start_plans_the_whole_topology() {
    // Cold start with the five default channels and no target device:
    // 5 channel sinks, 10 volume filters, 3 mix nodes, 8 port-level
    // links per channel (four stereo pairs), 2 stream-mix to stream-out
    // links, and one warning for the absent device.
    let configs = default_channels();
    let g = GraphManager::new();
    let actions = reconcile(&configs, &g);

    let sinks = actions.iter().filter(|a| matches!(a, ReconcileAction::CreateSink(_))).count();
    let links = actions.iter().filter(|a| matches!(a, ReconcileAction::CreateLink { .. })).count();
    let warns = actions.iter().filter(|a| matches!(a, ReconcileAction::Warn(_))).count();
    let destroys = actions
        .iter()
        .filter(|a| matches!(a, ReconcileAction::DestroyNode(_) | ReconcileAction::DestroyLink(_)))
        .count();

    assert_eq!(sinks, 18); // 5 sinks + 10 filters + 3 mixes
    assert_eq!(links, 42); // 5 channels * 8 + 2
    assert_eq!(warns, 1);
    assert_eq!(destroys, 0);

    // nodes are planned before their links
    let first_link = actions
        .iter()
        .position(|a| matches!(a, ReconcileAction::CreateLink { .. }))
        .unwrap();
    assert!(actions[..first_link]
        .iter()
        .all(|a| matches!(a, ReconcileAction::CreateSink(_))));

    // the node-creation plans agree with the per-name planners
    let names: Vec<String> = configs.iter().map(|c| c.name.clone()).collect();
    assert_eq!(plan_channel_sinks(&names).len(), 5);
    assert_eq!(plan_channel_volume_filters(&names).len(), 10);
    assert_eq!(plan_mix_nodes().len(), 3);
}

#[test]
fn reconcile_is_idempotent_once_applied() {
    // Applying the repairs and reconciling again finds nothing to do:
    // only the device warning remains while the target is absent.
    let configs = default_channels();
    let mut g = GraphManager::new();
    let mut next_id: u32 = 100;

    let actions = reconcile(&configs, &g);
    apply_actions(&mut g, &actions, &mut next_id);

    let again = reconcile(&configs, &g);
    assert!(again.iter().all(|a| matches!(a, ReconcileAction::Warn(_))));
    assert_eq!(again.len(), 1);
}

#[test]
fn reconcile_is_empty_on_a_healthy_graph_with_device() {
    let configs = default_channels();
    let mut g = GraphManager::new();
    let mut next_id: u32 = 100;
    add_sink_with_ports(&mut g, &mut next_id, "wave3-sink");

    let actions = reconcile(&configs, &g);
    apply_actions(&mut g, &actions, &mut next_id);

    let again = reconcile(&configs, &g);
    assert!(again.is_empty());
}

#[test]
fn app_discovery_routes_by_name() {
    // The audio server announces a client named spotify; the daemon
    // routes it to the music channel and asks for two links from the
    // client's output ports to the channel sink's input ports.
    let mut daemon = Daemon::init();
    let mut next_id: u32 = 200;
    add_sink_with_ports(&mut daemon.graph, &mut next_id, "ch-music");

    let client = RegistryGlobal {
        id: 300,
        kind: ObjectKind::Node,
        props: props(&[
            ("node.name", "spotify"),
            ("media.class", "Stream/Output/Audio"),
            ("application.name", "spotify"),
            ("application.process.binary", "spotify"),
            ("application.process.id", "4321"),
        ]),
    };
    let graph_events = ingest_global(&mut daemon.graph, &client);
    assert_eq!(graph_events.len(), 2);
    for (port_name, pid) in [("output_FL", 301u32), ("output_FR", 302u32)] {
        daemon.graph.add_port(PortInfo {
            id: pid,
            name: port_name.to_string(),
            direction: PortDirection::Output,
            node_id: 300,
            channel: None,
        });
    }

    let out = daemon.handle_graph_event(GraphEvent::ClientAppeared {
        id: 300,
        name: "spotify".to_string(),
        pid: Some(4321),
    });
    assert_eq!(out.events.len(), 1);
    match &out.events[0] {
        EventOut::AppDiscovered(d) => {
            assert_eq!(d.app_id, 300);
            assert_eq!(d.channel, "music");
        },
        other => panic!("unexpected event: {:?}", other),
    }
    assert_eq!(out.requests.len(), 2);
    match &out.requests[0] {
        FactoryRequest::CreateLink { output_node, input_node, .. } => {
            assert_eq!(*output_node, 300);
            assert_eq!(*input_node, daemon.graph.get_node_by_name("ch-music").unwrap().id);
        },
        other => panic!("unexpected request: {:?}", other),
    }
}

#[test]
fn volume_set_persists_and_applies() {
    // SetChannelVolume on music/stream: the state and the store hold
    // the new value, the filter node's parameter is requested, and the
    // change is announced.
    let mut daemon = Daemon::init();
    daemon.graph.record_created_node("ch-music-stream-vol".to_string(), 77);

    let out = daemon.set_channel_volume("music", MixType::Stream, 600);
    assert!(out.result.is_ok());

    let music = daemon
        .channels
        .iter()
        .find(|c| c.config.name == "music")
        .unwrap();
    assert_eq!(music.stream_volume, 600);

    let stored = daemon.store.load_channels();
    let stored_music = stored.iter().find(|c| c.config.name == "music").unwrap();
    assert_eq!(stored_music.stream_volume, 600);

    assert_eq!(out.requests.len(), 1);
    match &out.requests[0] {
        FactoryRequest::SetNodeVolume { node_id, volume } => {
            assert_eq!(*node_id, 77);
            assert_eq!(*volume, 600);
        },
        other => panic!("unexpected request: {:?}", other),
    }
    assert_eq!(out.events.len(), 1);
    match &out.events[0] {
        EventOut::ChannelVolumeChanged(d) => {
            assert_eq!(d.channel, "music");
            assert_eq!(d.volume, 600);
        },
        other => panic!("unexpected event: {:?}", other),
    }
}

#[test]
fn stored_volume_is_always_clamped() {
    // Setting a value beyond full scale stores the clamped value and
    // every stored volume stays within range.
    let mut daemon = Daemon::init();
    let out = daemon.set_channel_volume("game", MixType::Monitor, 9999);
    assert!(out.result.is_ok());
    for channel in &daemon.channels {
        assert!(channel.stream_volume <= 1000);
        assert!(channel.monitor_volume <= 1000);
    }
    let game = daemon.channels.iter().find(|c| c.config.name == "game").unwrap();
    assert_eq!(game.monitor_volume, 1000);
}

#[test]
fn unknown_channel_command_changes_nothing() {
    let mut daemon = Daemon::init();
    let before: Vec<u32> = daemon.channels.iter().map(|c| c.stream_volume).collect();
    let out = daemon.set_channel_mute("unknown", MixType::Stream, true);
    assert!(out.result.is_err());
    assert!(out.events.is_empty());
    assert!(out.requests.is_empty());
    let after: Vec<u32> = daemon.channels.iter().map(|c| c.stream_volume).collect();
    assert_eq!(before, after);
}

#[test]
fn target_device_appears_late_then_disappears() {
    // Start with no target sink, reach Running; the sink appears and
    // two monitor-mix links are requested; it disappears and the state
    // is DeviceDisconnected with all nodes kept; it reappears and the
    // links are requested again.
    let mut daemon = Daemon::init();
    let mut next_id: u32 = 400;
    daemon.set_running();

    // the managed topology exists and its creations are recorded
    let mix_id = add_sink_with_ports(&mut daemon.graph, &mut next_id, "monitor-mix");
    daemon.graph.record_created_node("monitor-mix".to_string(), mix_id);
    let nodes_before = daemon.graph.get_all_nodes().len();

    // no device yet
    let hr = undertone::server_logic::handle_request(
        &undertone::messages::Method::GetDeviceStatus,
        &daemon.snapshot(),
    );
    match hr.response {
        Ok(undertone::messages::Reply::DeviceStatus { connected, serial }) => {
            assert!(!connected);
            assert!(serial.is_none());
        },
        other => panic!("unexpected response: {:?}", other),
    }

    // the target sink appears
    add_sink_with_ports(&mut daemon.graph, &mut next_id, "wave3-sink");
    let out = daemon.handle_graph_event(GraphEvent::Wave3Detected { serial: "WS3-1".to_string() });
    assert!(matches!(daemon.state, undertone::state::DaemonState::Running));
    assert!(daemon.device_connected);
    assert_eq!(out.requests.len(), 2);
    assert!(matches!(&out.events[0], EventOut::DeviceConnected(d) if d.serial == "WS3-1"));

    // it disappears
    let out = daemon.handle_graph_event(GraphEvent::Wave3Removed);
    assert!(matches!(daemon.state, undertone::state::DaemonState::DeviceDisconnected));
    assert!(!daemon.device_connected);
    assert!(matches!(out.events[0], EventOut::DeviceDisconnected));
    assert_eq!(daemon.graph.get_all_nodes().len(), nodes_before + 1); // nodes kept

    // it reappears
    let out = daemon.handle_graph_event(GraphEvent::Wave3Detected { serial: "WS3-1".to_string() });
    assert!(matches!(daemon.state, undertone::state::DaemonState::Running));
    assert_eq!(out.requests.len(), 2);
}

#[test]
fn connected_event_drives_the_state_machine() {
    let mut daemon = Daemon::init();
    let out = daemon.handle_graph_event(GraphEvent::Connected);
    assert!(matches!(daemon.state, undertone::state::DaemonState::CreatingNodes));
    assert!(out.needs_topology);
    daemon.set_running();
    let out = daemon.handle_graph_event(GraphEvent::Connected);
    assert!(matches!(daemon.state, undertone::state::DaemonState::Reconciling));
    assert!(out.needs_reconcile);
}

#[test]
fn load_profile_applies_saved_state_atomically() {
    let mut daemon = Daemon::init();
    let _ = daemon.set_channel_volume("music", MixType::Stream, 300);
    let out = daemon.save_profile_cmd("evening");
    assert!(out.result.is_ok());

    let _ = daemon.set_channel_volume("music", MixType::Stream, 900);
    let out = daemon.load_profile_cmd("evening");
    assert!(out.result.is_ok());
    assert!(out.refresh_params);
    let music = daemon.channels.iter().find(|c| c.config.name == "music").unwrap();
    assert_eq!(music.stream_volume, 300);
    assert_eq!(daemon.active_profile, "evening");

    let out = daemon.load_profile_cmd("no-such-profile");
    assert!(out.result.is_err());
}

#[test]
fn default_profile_cannot_be_deleted_through_the_applier() {
    let mut daemon = Daemon::init();
    let out = daemon.delete_profile_cmd("Default");
    assert!(out.result.is_err());
    assert!(daemon.store.load_profile("Default").is_some());
}

#[test]
fn app_route_commands_update_rules_and_store() {
    let mut daemon = Daemon::init();
    let out = daemon.set_app_route("obs", "system");
    assert!(out.result.is_ok());
    assert!(matches!(&out.events[0], EventOut::AppRouteChanged { app_pattern, channel: Some(c) }
        if app_pattern == "obs" && c == "system"));
    assert!(daemon.routes.iter().any(|r| r.pattern == "obs" && r.channel == "system"));
    assert!(daemon.store.load_routes().iter().any(|r| r.pattern == "obs"));

    // replacing the same pattern keeps a single rule
    let _ = daemon.set_app_route("obs", "voice");
    assert_eq!(daemon.routes.iter().filter(|r| r.pattern == "obs").count(), 1);
    assert!(daemon.routes.iter().any(|r| r.pattern == "obs" && r.channel == "voice"));

    let out = daemon.remove_app_route("obs");
    assert!(out.result.is_ok());
    assert!(!daemon.routes.iter().any(|r| r.pattern == "obs"));
    assert!(!daemon.store.load_routes().iter().any(|r| r.pattern == "obs"));

    // an unknown channel validates and changes nothing
    let out = daemon.set_app_route("x", "nope");
    assert!(out.result.is_err());
    assert!(!daemon.routes.iter().any(|r| r.pattern == "x"));
}

#[test]
fn master_and_mic_commands_update_the_mixer() {
    let mut daemon = Daemon::init();
    let out = daemon.set_master_volume(MixType::Stream, 2000);
    assert!(out.result.is_ok());
    assert_eq!(daemon.mixer.stream_master_volume, 1000); // clamped
    let _ = daemon.set_master_mute(MixType::Monitor, true);
    assert!(daemon.mixer.monitor_master_muted);

    let out = daemon.set_mic_gain(450);
    assert_eq!(out.mic_gain, Some(450));
    assert_eq!(daemon.mixer.mic_stream_volume, 450);
    let out = daemon.set_mic_mute(true);
    assert_eq!(out.mic_mute, Some(true));
    assert!(daemon.mic_muted);
    assert!(matches!(out.events[0], EventOut::MicMuteChanged { muted: true }));
}

#[test]
fn matching_clients_finds_streams_by_any_identity() {
    let mut g = GraphManager::new();
    let mut mk = |id: u32, name: &str, app: Option<&str>, bin: Option<&str>| {
        g.add_node(NodeInfo {
            id,
            name: name.to_string(),
            description: None,
            media_class: Some("Stream/Output/Audio".to_string()),
            application_name: app.map(|s| s.to_string()),
            binary_name: bin.map(|s| s.to_string()),
            pid: None,
            device_serial: None,
            device_vendor_id: None,
            device_product_id: None,
            is_undertone_managed: false,
        });
    };
    mk(1, "stream-a", Some("discord-canary"), None);
    mk(2, "stream-b", None, Some("discord"));
    mk(3, "stream-c", Some("firefox"), None);
    let rule = undertone::routing::RouteRule::new(
        "discord".into(),
        undertone::routing::PatternType::Prefix,
        "voice".into(),
        100,
    );
    let ids = undertone::engine::matching_clients(&g, &rule);
    assert_eq!(ids, vec![1, 2]);
}

#[test]
fn shutdown_and_reconcile_drive_the_lifecycle() {
    let mut daemon = Daemon::init();
    let out = daemon.apply_command(undertone::command::Command::Reconcile);
    assert!(out.needs_reconcile);
    assert!(matches!(daemon.state, undertone::state::DaemonState::Reconciling));
    let out = daemon.apply_command(undertone::command::Command::Shutdown);
    assert!(out.shutdown);
    assert!(matches!(daemon.state, undertone::state::DaemonState::ShuttingDown));
}
