//! Routing rules: pattern matching, priorities, fallbacks.

use undertone::routing::{default_routes, find_channel_for_app, PatternType, RouteRule};

#[test]
fn test_exact_pattern_matches() {
    let rule = RouteRule::new("spotify".into(), PatternType::Exact, "music".into(), 100);

    assert!(rule.matches("spotify"));
    assert!(!rule.matches("Spotify")); // Case sensitive
    assert!(!rule.matches("spotify-player"));
    assert!(!rule.matches("my-spotify"));
}

#[test]
fn test_prefix_pattern_matches() {
    let rule = RouteRule::new("discord".into(), PatternType::Prefix, "voice".into(), 100);

    assert!(rule.matches("discord"));
    assert!(rule.matches("discord-canary"));
    assert!(rule.matches("discord-ptb"));
    assert!(!rule.matches("my-discord"));
    assert!(!rule.matches("Discord")); // Case sensitive
}

#[test]
fn test_regex_pattern_matches() {
    let rule = RouteRule::new(r"^game.*\.exe$".into(), PatternType::Regex, "game".into(), 100);

    assert!(rule.matches("game.exe"));
    assert!(rule.matches("game_launcher.exe"));
    assert!(!rule.matches("game.exe.bak"));
    assert!(!rule.matches("mygame.exe"));
}

#[test]
fn test_regex_pattern_cached() {
    let rule = RouteRule::new(r"test.*".into(), PatternType::Regex, "test".into(), 100);

    // First call compiles and caches
    assert!(rule.matches("test123"));
    // Second call should use cached regex
    assert!(rule.matches("testing"));
    // Verify cache is populated (internal check via behavior)
    assert!(!rule.matches("nope"));
}

#[test]
fn test_invalid_regex_returns_false() {
    // Invalid regex pattern (unclosed group)
    let rule = RouteRule::new(r"(invalid".into(), PatternType::Regex, "test".into(), 100);

    // Should return false without panicking
    assert!(!rule.matches("anything"));
    assert!(!rule.matches("(invalid"));
}

#[test]
fn test_find_channel_priority_ordering() {
    let rules = vec![
        RouteRule::new("app".into(), PatternType::Prefix, "low".into(), 10),
        RouteRule::new("app".into(), PatternType::Prefix, "high".into(), 100),
        RouteRule::new("app".into(), PatternType::Prefix, "medium".into(), 50),
    ];

    // Should match highest priority (100) first
    assert_eq!(find_channel_for_app("app-test", None, &rules), "high");
}

#[test]
fn test_find_channel_exact_before_prefix() {
    let _rules = [
        RouteRule::new("spotify".into(), PatternType::Prefix, "prefix-match".into(), 100),
        RouteRule::new("spotify".into(), PatternType::Exact, "exact-match".into(), 100),
    ];

    // Both have same priority - exact match should win due to ordering
    // Actually, both match "spotify" so first in sorted order wins
    // Let's use different priorities to ensure exact takes precedence
    let rules = vec![
        RouteRule::new("spotify".into(), PatternType::Prefix, "prefix-match".into(), 50),
        RouteRule::new("spotify".into(), PatternType::Exact, "exact-match".into(), 100),
    ];

    assert_eq!(find_channel_for_app("spotify", None, &rules), "exact-match");
}

#[test]
fn test_find_channel_fallback_to_system() {
    let rules = vec![RouteRule::new("known-app".into(), PatternType::Exact, "music".into(), 100)];

    assert_eq!(find_channel_for_app("unknown-app", None, &rules), "system");
}

#[test]
fn test_find_channel_binary_name_fallback() {
    let rules = vec![RouteRule::new("spotify".into(), PatternType::Exact, "music".into(), 100)];

    // App name doesn't match, but binary name does
    assert_eq!(find_channel_for_app("Spotify Music Player", Some("spotify"), &rules), "music");
}

#[test]
fn test_find_channel_app_name_takes_precedence() {
    let rules = vec![
        RouteRule::new("spotify".into(), PatternType::Exact, "music".into(), 100),
        RouteRule::new("media-player".into(), PatternType::Exact, "browser".into(), 100),
    ];

    // App name matches "spotify", so binary name is ignored
    assert_eq!(find_channel_for_app("spotify", Some("media-player"), &rules), "music");
}

#[test]
fn test_empty_rules_returns_system() {
    assert_eq!(find_channel_for_app("any-app", None, &[]), "system");
}

#[test]
fn test_default_routes_voice_apps() {
    let routes = default_routes();

    assert_eq!(find_channel_for_app("discord", None, &routes), "voice");
    assert_eq!(find_channel_for_app("discord-canary", None, &routes), "voice");
    assert_eq!(find_channel_for_app("zoom", None, &routes), "voice");
    assert_eq!(find_channel_for_app("teams", None, &routes), "voice");
}

#[test]
fn test_default_routes_music_apps() {
    let routes = default_routes();

    assert_eq!(find_channel_for_app("spotify", None, &routes), "music");
    assert_eq!(find_channel_for_app("rhythmbox", None, &routes), "music");
    // spotify-player doesn't match exact "spotify"
    assert_eq!(find_channel_for_app("spotify-player", None, &routes), "system");
}

#[test]
fn test_default_routes_browsers() {
    let routes = default_routes();

    assert_eq!(find_channel_for_app("firefox", None, &routes), "browser");
    assert_eq!(find_channel_for_app("chromium", None, &routes), "browser");
    assert_eq!(find_channel_for_app("chromium-browser", None, &routes), "browser");
    assert_eq!(find_channel_for_app("chrome", None, &routes), "browser");
}

#[test]
fn test_route_rule_clone() {
    let rule = RouteRule::new(r"test.*".into(), PatternType::Regex, "test".into(), 50);

    // Populate the cache
    assert!(rule.matches("testing"));

    // Clone should work and have its own cache
    let cloned = rule.clone();
    assert!(cloned.matches("test123"));
}

#[test]
fn broken_regex_rule_routes_to_system() {
    // A rule whose regex does not compile evaluates to no-match forever;
    // routing falls through to the system channel and nothing panics.
    let rules = vec![RouteRule::new("(unterminated".into(), PatternType::Regex, "game".into(), 100)];
    assert_eq!(find_channel_for_app("anything", None, &rules), "system");
    assert!(!rules[0].matches("anything"));
}

#[test]
fn regex_rules_match_the_whole_name() {
    // The pattern must cover the entire name: a substring hit is not a
    // match.
    let rule = RouteRule::new(r"b+".into(), PatternType::Regex, "game".into(), 10);
    assert!(rule.matches("bbb"));
    assert!(!rule.matches("abbb"));
    assert!(!rule.matches("bbba"));
}

#[test]
fn regex_match_depends_on_its_text() {
    // A full regex round trip through the engine: the answer depends on
    // the text, so a stubbed matcher would fail one of these.
    let rule = RouteRule::new(r"^a.+z$".into(), PatternType::Regex, "game".into(), 10);
    assert!(rule.matches("abcz"));
    assert!(!rule.matches("abc"));
    assert!(!rule.matches("z"));
}
