//! The store model: seeding, channel state, routes, profiles.

use undertone::mixer::MixerState;
use undertone::profile::{Profile, ProfileChannel};
use undertone::routing::{PatternType, RouteRule};
use undertone::store::Store;

fn test_db() -> Store {
    Store::new()
}

#[test]
fn test_load_channels_returns_default_channels() {
    let db = test_db();
    let channels = db.load_channels();

    // Should have 5 default channels
    assert_eq!(channels.len(), 5);

    // Check channel names
    let names: Vec<_> = channels.iter().map(|c| c.config.name.as_str()).collect();
    assert!(names.contains(&"system"));
    assert!(names.contains(&"voice"));
    assert!(names.contains(&"music"));
    assert!(names.contains(&"browser"));
    assert!(names.contains(&"game"));
}

#[test]
fn test_save_and_load_channel_state() {
    let mut db = test_db();

    // Load initial channels
    let channels = db.load_channels();
    let music_channel = channels.iter().find(|c| c.config.name == "music").unwrap();

    // Modify and save (volumes are thousandths of full scale)
    let mut modified = music_channel.clone();
    modified.stream_volume = 500;
    modified.stream_muted = true;
    modified.monitor_volume = 750;
    modified.monitor_muted = false;

    db.save_channel_state("music", &modified);

    // Reload and verify
    let channels = db.load_channels();
    let music_channel = channels.iter().find(|c| c.config.name == "music").unwrap();

    assert_eq!(music_channel.stream_volume, 500);
    assert!(music_channel.stream_muted);
    assert_eq!(music_channel.monitor_volume, 750);
    assert!(!music_channel.monitor_muted);
}

#[test]
fn test_load_routes_returns_default_routes() {
    let db = test_db();
    let routes = db.load_routes();

    // Should have default routes
    assert!(!routes.is_empty());

    // Check that some known routes exist
    let discord_route = routes.iter().find(|r| r.pattern == "discord");
    assert!(discord_route.is_some());
    assert_eq!(discord_route.unwrap().channel, "voice");
}

#[test]
fn test_save_and_delete_route() {
    let mut db = test_db();

    // Create a new route
    let rule = RouteRule::new("my-app".into(), PatternType::Exact, "music".into(), 200);
    db.save_route(&rule);

    // Verify it exists
    let routes = db.load_routes();
    let my_route = routes.iter().find(|r| r.pattern == "my-app");
    assert!(my_route.is_some());
    assert_eq!(my_route.unwrap().priority, 200);

    // Delete the route
    db.delete_route("my-app");

    // Verify it's gone
    let routes = db.load_routes();
    let my_route = routes.iter().find(|r| r.pattern == "my-app");
    assert!(my_route.is_none());
}

#[test]
fn test_save_route_upsert() {
    let mut db = test_db();

    // Create a route
    let rule = RouteRule::new("test-app".into(), PatternType::Exact, "music".into(), 100);
    db.save_route(&rule);

    // Update the same route with different values
    let updated_rule = RouteRule::new("test-app".into(), PatternType::Prefix, "voice".into(), 150);
    db.save_route(&updated_rule);

    // Verify the update
    let routes = db.load_routes();
    let test_route = routes.iter().find(|r| r.pattern == "test-app").unwrap();

    assert_eq!(test_route.pattern_type, PatternType::Prefix);
    assert_eq!(test_route.channel, "voice");
    assert_eq!(test_route.priority, 150);
}

#[test]
fn test_list_profiles_has_default() {
    let db = test_db();
    let profiles = db.list_profiles();

    // Should have the default profile
    assert_eq!(profiles.len(), 1);
    assert_eq!(profiles[0].name, "Default");
    assert!(profiles[0].is_default);
}

#[test]
fn test_save_and_load_profile() {
    let mut db = test_db();

    // Create a profile
    let profile = Profile {
        name: "test-profile".into(),
        description: Some("A test profile".into()),
        is_default: false,
        channels: vec![ProfileChannel {
            name: "music".into(),
            stream_volume: 800,
            stream_muted: false,
            monitor_volume: 600,
            monitor_muted: true,
        }],
        routes: vec![RouteRule::new("custom-app".into(), PatternType::Exact, "music".into(), 100)],
        mixer: MixerState::default(),
    };

    db.save_profile(&profile);

    // Load it back
    let loaded = db.load_profile("test-profile");
    assert!(loaded.is_some());

    let loaded = loaded.unwrap();
    assert_eq!(loaded.name, "test-profile");
    assert_eq!(loaded.description, Some("A test profile".into()));
    assert!(!loaded.is_default);
    assert_eq!(loaded.channels.len(), 1);
    assert_eq!(loaded.routes.len(), 1);
}

#[test]
fn test_profile_not_found() {
    let db = test_db();
    let loaded = db.load_profile("nonexistent");
    assert!(loaded.is_none());
}

#[test]
fn test_delete_profile() {
    let mut db = test_db();

    // Create a profile
    let profile = Profile {
        name: "deleteme".into(),
        description: None,
        is_default: false,
        channels: vec![],
        routes: vec![],
        mixer: MixerState::default(),
    };
    db.save_profile(&profile);

    // Verify it exists
    let profiles = db.list_profiles();
    assert!(profiles.iter().any(|p| p.name == "deleteme"));

    // Delete it
    let deleted = db.delete_profile("deleteme");
    assert!(deleted);

    // Verify it's gone
    let profiles = db.list_profiles();
    assert!(!profiles.iter().any(|p| p.name == "deleteme"));
}

#[test]
fn test_cannot_delete_default_profile() {
    let mut db = test_db();

    // Create a default profile
    let profile = Profile {
        name: "default".into(),
        description: None,
        is_default: true,
        channels: vec![],
        routes: vec![],
        mixer: MixerState::default(),
    };
    db.save_profile(&profile);

    // Try to delete it
    let deleted = db.delete_profile("default");
    assert!(!deleted); // Should return false

    // Verify it still exists
    let loaded = db.load_profile("default");
    assert!(loaded.is_some());
}

#[test]
fn test_log_event() {
    let mut db = test_db();

    // Should not fail
    db.log_event("info", "test", "Test message", Some(r#"{"key": "value"}"#));

    db.log_event("error", "test", "Error message", None);
}

#[test]
fn test_route_pattern_types() {
    let mut db = test_db();

    // Test all pattern types
    let exact = RouteRule::new("exact-app".into(), PatternType::Exact, "music".into(), 100);
    let prefix = RouteRule::new("prefix-app".into(), PatternType::Prefix, "voice".into(), 100);
    let regex = RouteRule::new(r"regex-\d+".into(), PatternType::Regex, "game".into(), 100);

    db.save_route(&exact);
    db.save_route(&prefix);
    db.save_route(&regex);

    let routes = db.load_routes();

    let exact_loaded = routes.iter().find(|r| r.pattern == "exact-app").unwrap();
    let prefix_loaded = routes.iter().find(|r| r.pattern == "prefix-app").unwrap();
    let regex_loaded = routes.iter().find(|r| r.pattern == r"regex-\d+").unwrap();

    assert_eq!(exact_loaded.pattern_type, PatternType::Exact);
    assert_eq!(prefix_loaded.pattern_type, PatternType::Prefix);
    assert_eq!(regex_loaded.pattern_type, PatternType::Regex);
}

#[test]
fn profile_round_trip_preserves_observed_fields() {
    // Saving a profile whose saved channels name known channels, then
    // loading it back, returns a profile equal on every observed field.
    let mut db = test_db();
    let profile = Profile {
        name: "snapshot".into(),
        description: Some("a snapshot".into()),
        is_default: false,
        channels: vec![
            ProfileChannel {
                name: "voice".into(),
                stream_volume: 250,
                stream_muted: true,
                monitor_volume: 900,
                monitor_muted: false,
            },
            ProfileChannel {
                name: "game".into(),
                stream_volume: 1000,
                stream_muted: false,
                monitor_volume: 0,
                monitor_muted: true,
            },
        ],
        routes: vec![RouteRule::new("obs".into(), PatternType::Exact, "system".into(), 42)],
        mixer: MixerState::default(),
    };
    db.save_profile(&profile);
    let loaded = db.load_profile("snapshot").unwrap();
    assert_eq!(loaded.name, "snapshot");
    assert_eq!(loaded.description, Some("a snapshot".into()));
    assert!(!loaded.is_default);
    assert_eq!(loaded.channels.len(), 2);
    assert_eq!(loaded.channels[0].name, "voice");
    assert_eq!(loaded.channels[0].stream_volume, 250);
    assert!(loaded.channels[0].stream_muted);
    assert_eq!(loaded.channels[1].monitor_volume, 0);
    assert_eq!(loaded.routes.len(), 1);
    assert_eq!(loaded.routes[0].pattern, "obs");
    assert_eq!(loaded.routes[0].priority, 42);
}

#[test]
fn saving_a_profile_drops_unknown_channels() {
    // A saved channel naming a channel the store does not know is
    // dropped; the rest survives.
    let mut db = test_db();
    let profile = Profile {
        name: "partial".into(),
        description: None,
        is_default: false,
        channels: vec![
            ProfileChannel {
                name: "music".into(),
                stream_volume: 300,
                stream_muted: false,
                monitor_volume: 300,
                monitor_muted: false,
            },
            ProfileChannel {
                name: "no-such-channel".into(),
                stream_volume: 1,
                stream_muted: false,
                monitor_volume: 1,
                monitor_muted: false,
            },
        ],
        routes: vec![],
        mixer: MixerState::default(),
    };
    db.save_profile(&profile);
    let loaded = db.load_profile("partial").unwrap();
    assert_eq!(loaded.channels.len(), 1);
    assert_eq!(loaded.channels[0].name, "music");
}

#[test]
fn default_profile_name_is_reported() {
    let db = test_db();
    assert_eq!(db.get_default_profile(), Some("Default".to_string()));
}
