//! The graph cache, registry ingestion, and small parsers.

use undertone::graph::{GraphManager, LinkInfo, LinkState, NodeInfo, PortDirection, PortInfo};
use undertone::hid::{parse_mixer_mute, parse_mixer_percent, Wave3Device};
use undertone::monitor::{ingest_global, ingest_global_removed, GraphEvent, ObjectKind, RegistryGlobal};
use undertone::strutil::{capitalize, parse_u32, str_contains, u32_to_string};

fn node(id: u32, name: &str, media: Option<&str>) -> NodeInfo {
    NodeInfo {
        id,
        name: name.to_string(),
        description: None,
        media_class: media.map(|m| m.to_string()),
        application_name: None,
        binary_name: None,
        pid: None,
        device_serial: None,
        device_vendor_id: None,
        device_product_id: None,
        is_undertone_managed: name.starts_with("ch-") || name.starts_with("stream-")
            || name.starts_with("monitor-"),
    }
}

#[test]
fn add_node_is_idempotent_on_id_collision() {
    let mut g = GraphManager::new();
    g.add_node(node(7, "first", None));
    g.add_node(node(7, "second", None));
    assert_eq!(g.get_all_nodes().len(), 1);
    assert_eq!(g.get_node(7).unwrap().name, "second");
}

#[test]
fn removed_node_is_absent_by_id_and_name() {
    // After NodeRemoved(id), lookups by id or by its former name return
    // absent.
    let mut g = GraphManager::new();
    g.add_node(node(1, "alpha", None));
    g.add_node(node(2, "beta", None));
    g.remove_node(1);
    assert!(g.get_node(1).is_none());
    assert!(g.get_node_by_name("alpha").is_none());
    assert!(g.get_node(2).is_some());
}

#[test]
fn has_link_sees_direction() {
    let mut g = GraphManager::new();
    g.add_link(LinkInfo {
        id: 50,
        output_node: 1,
        output_port: 10,
        input_node: 2,
        input_port: 20,
        state: LinkState::Active,
        is_undertone_managed: true,
    });
    assert!(g.has_link(1, 2));
    assert!(!g.has_link(2, 1));
}

#[test]
fn ports_are_filtered_by_node_and_direction() {
    let mut g = GraphManager::new();
    g.add_port(PortInfo {
        id: 100,
        name: "monitor_FL".to_string(),
        direction: PortDirection::Output,
        node_id: 1,
        channel: Some("FL".to_string()),
    });
    g.add_port(PortInfo {
        id: 101,
        name: "playback_FL".to_string(),
        direction: PortDirection::Input,
        node_id: 1,
        channel: Some("FL".to_string()),
    });
    assert_eq!(g.get_output_ports(1).len(), 1);
    assert_eq!(g.get_input_ports(1).len(), 1);
    assert_eq!(g.get_ports_for_node(1).len(), 2);
    assert!(g.get_port_by_name(1, "monitor_FL").is_some());
    assert!(g
        .get_port_by_channel(1, PortDirection::Input, "FL")
        .is_some());
}

#[test]
fn created_registry_records_and_answers() {
    let mut g = GraphManager::new();
    g.record_created_node("ch-music".to_string(), 42);
    g.record_created_node("ch-music".to_string(), 43); // upsert
    assert_eq!(g.get_created_node_id("ch-music"), Some(43));
    assert_eq!(g.get_created_node_id("ch-voice"), None);
    g.record_created_link("monitor-mix->wave3-sink:FL".to_string(), 77);
    assert!(g.has_created_link("monitor-mix->wave3-sink:FL"));
    assert!(g.has_all_undertone_nodes(&["ch-music"]));
    assert!(!g.has_all_undertone_nodes(&["ch-music", "ch-voice"]));
}

#[test]
fn audio_clients_exclude_managed_and_device_nodes() {
    let mut g = GraphManager::new();
    g.add_node(node(1, "spotify-stream", Some("Stream/Output/Audio")));
    g.add_node(node(2, "ch-music", Some("Audio/Sink")));
    g.add_node(node(3, "wave3-source-stream", Some("Stream/Output/Audio")));
    let clients = g.get_audio_clients();
    assert_eq!(clients.len(), 1);
    assert_eq!(clients[0].id, 1);
}

#[test]
fn wave3_sink_found_by_conventional_name_first() {
    let mut g = GraphManager::new();
    g.add_node(node(5, "alsa_output.usb-Elgato_Wave_3", Some("Audio/Sink")));
    g.add_node(node(6, "wave3-sink", Some("Audio/Sink")));
    assert_eq!(g.find_wave3_sink().unwrap().id, 6);
    g.remove_node(6);
    // falls back to matching by name and class
    assert_eq!(g.find_wave3_sink().unwrap().id, 5);
}

fn props(pairs: &[(&str, &str)]) -> Vec<(String, String)> {
    pairs.iter().map(|(k, v)| (k.to_string(), v.to_string())).collect()
}

#[test]
fn ingest_builds_node_record_and_detects_clients() {
    let mut g = GraphManager::new();
    let obj = RegistryGlobal {
        id: 31,
        kind: ObjectKind::Node,
        props: props(&[
            ("node.name", "spotify"),
            ("media.class", "Stream/Output/Audio"),
            ("application.name", "spotify"),
            ("application.process.binary", "spotify"),
            ("application.process.id", "1234"),
        ]),
    };
    let events = ingest_global(&mut g, &obj);
    assert_eq!(events.len(), 2);
    match &events[0] {
        GraphEvent::NodeAdded(n) => {
            assert_eq!(n.id, 31);
            assert_eq!(n.name, "spotify");
            assert_eq!(n.pid, Some(1234));
            assert!(!n.is_undertone_managed);
        },
        other => panic!("unexpected event: {:?}", other),
    }
    match &events[1] {
        GraphEvent::ClientAppeared { id, name, pid } => {
            assert_eq!(*id, 31);
            assert_eq!(name, "spotify");
            assert_eq!(*pid, Some(1234));
        },
        other => panic!("unexpected event: {:?}", other),
    }
}

#[test]
fn ingest_detects_device_source_and_its_removal() {
    let mut g = GraphManager::new();
    let obj = RegistryGlobal {
        id: 9,
        kind: ObjectKind::Node,
        props: props(&[
            ("node.name", "wave3-source"),
            ("media.class", "Audio/Source"),
            ("device.serial", "WS3-123"),
        ]),
    };
    let events = ingest_global(&mut g, &obj);
    assert_eq!(events.len(), 2);
    assert!(matches!(&events[1], GraphEvent::Wave3Detected { serial } if serial == "WS3-123"));

    let removed = ingest_global_removed(&mut g, 9);
    assert_eq!(removed.len(), 2);
    assert!(matches!(removed[0], GraphEvent::Wave3Removed));
    assert!(matches!(&removed[1], GraphEvent::NodeRemoved { id: 9, name } if name == "wave3-source"));
    assert!(g.get_node(9).is_none());
}

#[test]
fn ingest_reads_port_direction_and_marks_managed_nodes() {
    let mut g = GraphManager::new();
    let port = RegistryGlobal {
        id: 70,
        kind: ObjectKind::Port,
        props: props(&[
            ("port.name", "playback_FL"),
            ("port.direction", "in"),
            ("node.id", "31"),
            ("audio.channel", "FL"),
        ]),
    };
    let events = ingest_global(&mut g, &port);
    assert_eq!(events.len(), 1);
    match &events[0] {
        GraphEvent::PortAdded(p) => {
            assert_eq!(p.direction, PortDirection::Input);
            assert_eq!(p.node_id, 31);
            assert_eq!(p.channel.as_deref(), Some("FL"));
        },
        other => panic!("unexpected event: {:?}", other),
    }

    let managed = RegistryGlobal {
        id: 71,
        kind: ObjectKind::Node,
        props: props(&[
            ("node.name", "odd-name"),
            ("undertone.managed", "true"),
        ]),
    };
    let events = ingest_global(&mut g, &managed);
    match &events[0] {
        GraphEvent::NodeAdded(n) => assert!(n.is_undertone_managed),
        other => panic!("unexpected event: {:?}", other),
    }
}

#[test]
fn mixer_output_parsers_read_state() {
    assert_eq!(parse_mixer_mute("Mono: Playback 50 [50%] [on]"), Some(false));
    assert_eq!(parse_mixer_mute("Mono: Playback 50 [50%] [off]"), Some(true));
    assert_eq!(parse_mixer_mute("no switch here"), None);
    assert_eq!(parse_mixer_percent("Mono: Playback 50 [50%] [on]"), Some(50));
    assert_eq!(parse_mixer_percent("Mono: [100%]"), Some(100));
    assert_eq!(parse_mixer_percent("no reading"), None);
}

#[test]
fn device_record_keeps_identifiers() {
    let dev = Wave3Device::new("WS3-9".to_string(), Some("hw:2".to_string()));
    assert_eq!(dev.serial(), "WS3-9");
    assert_eq!(dev.alsa_card(), Some("hw:2"));
}

#[test]
fn string_utilities_behave() {
    assert_eq!(parse_u32("1234"), Some(1234));
    assert_eq!(parse_u32(""), None);
    assert_eq!(parse_u32("12a"), None);
    assert_eq!(parse_u32("99999999999999999999"), None);
    assert!(str_contains("Audio/Sink", "Sink"));
    assert!(!str_contains("Audio/Source", "Sink"));
    assert_eq!(capitalize("music"), "Music");
    assert_eq!(capitalize("Browser"), "Browser");
    assert_eq!(capitalize(""), "");
    assert_eq!(u32_to_string(0), "0");
    assert_eq!(u32_to_string(7), "7");
    assert_eq!(u32_to_string(1000), "1000");
    assert_eq!(u32_to_string(4294967295), "4294967295");
}
