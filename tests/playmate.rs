use playmate::{
    auth_step, config_location, parse_decimal, pick_playlist, plan_move, read_selection,
    selection_index, token_cache_location, AuthStep, ItemId, MovePlan, Playing,
    PlaylistCandidate, ProfileConfig,
};

fn candidates() -> Vec<PlaylistCandidate> {
    vec![
        PlaylistCandidate { name: "Morning".to_string(), id: "pl-morning".to_string() },
        PlaylistCandidate { name: "Focus".to_string(), id: "pl-focus".to_string() },
        PlaylistCandidate { name: "Gym".to_string(), id: "pl-gym".to_string() },
    ]
}

// Carries out a plan on a local copy of a playlist, as the service does it:
// every occurrence is removed, then the item is added at the end.
fn carry_out(plan: &MovePlan, playlist: &mut Vec<ItemId>) {
    if let MovePlan::Move { item, .. } = plan {
        playlist.retain(|x| x != item);
        playlist.push(item.clone());
    }
}

#[test]
fn new_config_is_empty() {
    let c = ProfileConfig::new();
    assert!(c.playlist_id.is_none());
    assert!(c.playlist_snapshot_id.is_none());
    assert!(c.playlist_track_cache.is_none());
    assert!(c.needs_playlist());
}

#[test]
fn recorded_playlist_skips_selection() {
    let mut c = ProfileConfig::new();
    c.set_playlist_id("pl-focus".to_string());
    assert!(!c.needs_playlist());
    assert_eq!(c.playlist_id, Some("pl-focus".to_string()));
}

#[test]
fn recording_playlist_keeps_other_fields() {
    let mut c = ProfileConfig {
        playlist_id: None,
        playlist_snapshot_id: Some("snap-3".to_string()),
        playlist_track_cache: Some(vec!["t1".to_string(), "t2".to_string()]),
    };
    c.set_playlist_id("pl-gym".to_string());
    assert_eq!(c.playlist_id, Some("pl-gym".to_string()));
    assert_eq!(c.playlist_snapshot_id, Some("snap-3".to_string()));
    assert_eq!(c.playlist_track_cache, Some(vec!["t1".to_string(), "t2".to_string()]));
}

#[test]
fn config_path_is_profile_scoped() {
    let p = config_location("/data", "work");
    assert_eq!(p, vec!["/data", "playmate", "work", "config.toml"]);
    let d = config_location("/data", "default");
    assert_eq!(d, vec!["/data", "playmate", "default", "config.toml"]);
}

#[test]
fn token_cache_path() {
    assert_eq!(
        token_cache_location("/data", "default"),
        vec!["/data", "playmate", "default", "token_cache.json"]
    );
}

#[test]
fn token_cache_is_profile_scoped() {
    assert_ne!(token_cache_location("/data", "work"), token_cache_location("/data", "home"));
    assert_eq!(
        token_cache_location("/data", "work"),
        vec!["/data", "playmate", "work", "token_cache.json"]
    );
}

#[test]
fn parses_plain_numbers() {
    assert_eq!(parse_decimal("42"), Some(42));
    assert_eq!(parse_decimal("0"), Some(0));
    assert_eq!(parse_decimal("007"), Some(7));
    assert_eq!(parse_decimal("+7"), Some(7));
}

#[test]
fn rejects_what_is_not_a_number() {
    assert_eq!(parse_decimal(""), None);
    assert_eq!(parse_decimal("+"), None);
    assert_eq!(parse_decimal("-1"), None);
    assert_eq!(parse_decimal("abc"), None);
    assert_eq!(parse_decimal("1a"), None);
    assert_eq!(parse_decimal("1 2"), None);
    assert_eq!(parse_decimal("++1"), None);
}

#[test]
fn parse_agrees_with_std() {
    for s in ["", "+", "-0", "12", "+12", "x", "99999999999999999999999", "0012", "3.0"] {
        assert_eq!(parse_decimal(s), s.parse::<usize>().ok(), "input {:?}", s);
    }
}

#[test]
fn largest_number_fits_and_one_more_does_not() {
    let max = usize::MAX.to_string();
    assert_eq!(parse_decimal(&max), Some(usize::MAX));
    let over = format!("{}0", max);
    assert_eq!(parse_decimal(&over), None);
    let next = (usize::MAX as u128 + 1).to_string();
    assert_eq!(parse_decimal(&next), None);
}

#[test]
fn selection_accepts_only_listed_numbers() {
    assert_eq!(selection_index("1", 3), Some(0));
    assert_eq!(selection_index("2", 3), Some(1));
    assert_eq!(selection_index("3", 3), Some(2));
    assert_eq!(selection_index("0", 3), None);
    assert_eq!(selection_index("4", 3), None);
    assert_eq!(selection_index("two", 3), None);
    assert_eq!(selection_index("", 3), None);
}

#[test]
fn selection_in_empty_menu_fails() {
    assert_eq!(selection_index("1", 0), None);
}

#[test]
fn typed_line_is_trimmed() {
    assert_eq!(read_selection("  2 \n", 3), Some(1));
    assert_eq!(read_selection("3\r\n", 3), Some(2));
    assert_eq!(read_selection("\n", 3), None);
    assert_eq!(read_selection("4\n", 3), None);
    assert_eq!(read_selection("0\n", 3), None);
}

#[test]
fn pick_returns_selected_playlist_id() {
    let c = candidates();
    assert_eq!(pick_playlist(&c, "2\n"), Some("pl-focus".to_string()));
    assert_eq!(pick_playlist(&c, "1\n"), Some("pl-morning".to_string()));
    assert_eq!(pick_playlist(&c, "3"), Some("pl-gym".to_string()));
}

#[test]
fn pick_asks_again_on_bad_input() {
    let c = candidates();
    for line in ["0\n", "4\n", "gym\n", "\n", "", "-1\n"] {
        assert_eq!(pick_playlist(&c, line), None, "line {:?}", line);
    }
}

#[test]
fn nothing_playing_stops() {
    assert_eq!(plan_move(Playing::Nothing, "pl-focus".to_string()), MovePlan::NothingPlaying);
}

#[test]
fn local_file_is_not_moved() {
    assert_eq!(plan_move(Playing::Local, "pl-focus".to_string()), MovePlan::LocalItem);
}

#[test]
fn catalog_track_is_moved() {
    let plan = plan_move(Playing::Item(ItemId::Track("T".to_string())), "L".to_string());
    assert_eq!(
        plan,
        MovePlan::Move { playlist: "L".to_string(), item: ItemId::Track("T".to_string()) }
    );
}

#[test]
fn episode_is_moved() {
    let plan = plan_move(Playing::Item(ItemId::Episode("E".to_string())), "L".to_string());
    assert_eq!(
        plan,
        MovePlan::Move { playlist: "L".to_string(), item: ItemId::Episode("E".to_string()) }
    );
}

#[test]
fn track_present_once_ends_up_once_at_end() {
    let t = ItemId::Track("T".to_string());
    let a = ItemId::Track("A".to_string());
    let b = ItemId::Track("B".to_string());
    let mut playlist = vec![a.clone(), t.clone(), b.clone()];
    let plan = plan_move(Playing::Item(t.clone()), "L".to_string());
    carry_out(&plan, &mut playlist);
    assert_eq!(playlist, vec![a, b, t.clone()]);
    assert_eq!(playlist.iter().filter(|x| **x == t).count(), 1);
}

#[test]
fn nothing_playing_leaves_playlist() {
    let a = ItemId::Track("A".to_string());
    let mut playlist = vec![a.clone()];
    let plan = plan_move(Playing::Nothing, "L".to_string());
    carry_out(&plan, &mut playlist);
    assert_eq!(playlist, vec![a]);
}

#[test]
fn cached_credential_skips_prompt() {
    assert_eq!(auth_step(true, false, true), AuthStep::ReadCache);
    assert_eq!(auth_step(true, false, false), AuthStep::ReadCache);
}

#[test]
fn expired_refreshable_credential_skips_prompt() {
    assert_eq!(auth_step(true, true, true), AuthStep::ReadCache);
}

#[test]
fn expired_credential_without_refresh_asks_for_consent() {
    assert_eq!(auth_step(true, true, false), AuthStep::AskForConsent);
}

#[test]
fn missing_cache_asks_for_consent() {
    assert_eq!(auth_step(false, false, false), AuthStep::AskForConsent);
    assert_eq!(auth_step(false, true, true), AuthStep::AskForConsent);
}

#[test]
fn unicode_white_space_is_trimmed() {
    assert_eq!(read_selection("\u{3000}2\u{a0}\t", 3), Some(1));
    assert_eq!(read_selection("\u{2003}\u{85}", 3), None);
}
