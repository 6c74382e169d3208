use scoreforge_display::app::{next_connection_step, ScoreForgeApp};
use scoreforge_display::components::{
    collect_asset_ids, collect_font_families, ComponentData, ComponentType, ScoreboardComponent,
};
use scoreforge_display::domain::{
    ConnectionStep, LiveDataMessage, SetScore, TennisLiveData, TournamentInfo,
};
use scoreforge_display::text::{parse_i32_or_zero, sanitize_int_input};

fn sample_snapshot() -> TennisLiveData {
    TennisLiveData {
        player1_name: "Alpha".to_string(),
        player2_name: "Beta".to_string(),
        player1_display_name: "A. Alpha".to_string(),
        player2_display_name: "B. Beta".to_string(),
        player1_nationality: Some("se".to_string()),
        player2_nationality: None,
        sets: vec![SetScore { player1_games: 6, player2_games: 4 }],
        current_game_points: [15, 0],
        tiebreak_points: [0, 0],
        serving_player: 1,
        is_tiebreak: false,
        is_match_complete: false,
        aces: [2, 1],
        double_faults: [0, 3],
        match_started_timestamp: Some(1_700_000_000_000),
        match_completed_at: None,
    }
}

#[test]
fn connection_step_follows_the_data() {
    let step = ConnectionStep::Connecting;
    assert_eq!(
        next_connection_step(step, &LiveDataMessage::Connected),
        ConnectionStep::Connecting
    );
    assert_eq!(
        next_connection_step(step, &LiveDataMessage::TournamentList(Vec::new())),
        ConnectionStep::SelectTournament
    );
    assert_eq!(
        next_connection_step(step, &LiveDataMessage::CourtList(Vec::new())),
        ConnectionStep::SelectCourt
    );
    assert_eq!(
        next_connection_step(step, &LiveDataMessage::MatchDataUpdated(sample_snapshot())),
        ConnectionStep::Live
    );
    assert_eq!(
        next_connection_step(step, &LiveDataMessage::CourtNoActiveMatch),
        ConnectionStep::Live
    );
    assert_eq!(
        next_connection_step(step, &LiveDataMessage::Error("x".to_string())),
        ConnectionStep::Connecting
    );
    assert_eq!(
        next_connection_step(step, &LiveDataMessage::Disconnected),
        ConnectionStep::Disconnected
    );
    assert_eq!(
        next_connection_step(
            ConnectionStep::Disconnected,
            &LiveDataMessage::PairingStarted { pairing_code: "AB".to_string(), expires_at: 1 }
        ),
        ConnectionStep::Pairing
    );
}

#[test]
fn processing_messages_updates_the_mirror() {
    let mut app = ScoreForgeApp::new();
    assert_eq!(app.connection_step, ConnectionStep::Disconnected);

    app.process_message(LiveDataMessage::Connected);
    assert_eq!(app.connection_step, ConnectionStep::Disconnected);

    app.process_message(LiveDataMessage::TournamentList(vec![TournamentInfo {
        id: "t1".to_string(),
        name: "Spring Open".to_string(),
        status: "active".to_string(),
    }]));
    assert_eq!(app.connection_step, ConnectionStep::SelectTournament);
    assert_eq!(app.tournament_list.len(), 1);

    app.process_message(LiveDataMessage::CourtList(vec!["C1".to_string()]));
    assert_eq!(app.connection_step, ConnectionStep::SelectCourt);
    assert_eq!(app.court_list, vec!["C1"]);

    app.process_message(LiveDataMessage::MatchDataUpdated(sample_snapshot()));
    assert_eq!(app.connection_step, ConnectionStep::Live);
    assert!(app.live_match_data.is_some());

    // An error leaves the last good state in place.
    app.process_message(LiveDataMessage::Error("hiccup".to_string()));
    assert_eq!(app.connection_step, ConnectionStep::Live);
    assert!(app.live_match_data.is_some());

    app.process_message(LiveDataMessage::Disconnected);
    assert_eq!(app.connection_step, ConnectionStep::Disconnected);
}

#[test]
fn sync_display_state_mirrors_when_active() {
    let mut app = ScoreForgeApp::new();
    app.live_match_data = Some(sample_snapshot());
    app.display_fullscreen = true;
    app.display_offset_x = "120".to_string();
    app.display_offset_y = "-45".to_string();

    // Inactive: the tick changes nothing.
    app.sync_display_state();
    assert!(app.display.live_data.is_none());
    assert_eq!(app.display.offset_x, 0);

    app.display_active = true;
    app.sync_display_state();
    assert_eq!(app.display.live_data, Some(sample_snapshot()));
    assert!(app.display.fullscreen);
    assert!(!app.display.should_close);
    assert_eq!(app.display.offset_x, 120);
    assert_eq!(app.display.offset_y, -45);

    // Malformed offset text falls back to zero.
    app.display_offset_x = "12a".to_string();
    app.sync_display_state();
    assert_eq!(app.display.offset_x, 0);
}

#[test]
fn offset_text_parses_like_a_strict_integer() {
    assert_eq!(parse_i32_or_zero("0"), 0);
    assert_eq!(parse_i32_or_zero("+42"), 42);
    assert_eq!(parse_i32_or_zero("-0007"), -7);
    assert_eq!(parse_i32_or_zero("2147483647"), 2147483647);
    assert_eq!(parse_i32_or_zero("-2147483648"), -2147483648);
    assert_eq!(parse_i32_or_zero("2147483648"), 0);
    assert_eq!(parse_i32_or_zero("-2147483649"), 0);
    assert_eq!(parse_i32_or_zero(""), 0);
    assert_eq!(parse_i32_or_zero("-"), 0);
    assert_eq!(parse_i32_or_zero("+"), 0);
    assert_eq!(parse_i32_or_zero(" 1"), 0);
    assert_eq!(parse_i32_or_zero("1.5"), 0);
}

#[test]
fn sanitize_keeps_leading_minus_and_digits_only() {
    assert_eq!(sanitize_int_input("-12a3"), "-123");
    assert_eq!(sanitize_int_input("a-5"), "5");
    assert_eq!(sanitize_int_input("--34"), "-34");
    assert_eq!(sanitize_int_input("12.5"), "125");
    assert_eq!(sanitize_int_input(""), "");
    assert_eq!(sanitize_int_input("abc"), "");
}

#[test]
fn collect_asset_ids_empty() {
    let ids = collect_asset_ids(&[]);
    assert!(ids.is_empty());
}

#[test]
fn collect_asset_ids_with_image_assets() {
    let id1: u64 = 100;
    let id2: u64 = 200;
    let mut comp1 = ScoreboardComponent::new(ComponentType::Image);
    comp1.data = ComponentData::Image { asset_id: Some(id1) };

    let mut comp2 = ScoreboardComponent::new(ComponentType::Background);
    comp2.data = ComponentData::Background { asset_id: Some(id2) };

    let ids = collect_asset_ids(&[comp1, comp2]);
    assert_eq!(ids.len(), 2);
    assert!(ids.contains(&id1));
    assert!(ids.contains(&id2));
}

#[test]
fn collect_asset_ids_skips_non_asset_components() {
    let comp = ScoreboardComponent::new(ComponentType::Text);
    let ids = collect_asset_ids(&[comp]);
    assert!(ids.is_empty());
}

#[test]
fn collect_asset_ids_skips_none_assets() {
    let comp = ScoreboardComponent::new(ComponentType::Image);
    // Default Image has asset_id: None
    let ids = collect_asset_ids(&[comp]);
    assert!(ids.is_empty());
}

#[test]
fn collect_font_families_deduplicates() {
    let mut a = ScoreboardComponent::new(ComponentType::Text);
    a.style.font_family = Some("Inter".to_string());
    let mut b = ScoreboardComponent::new(ComponentType::TennisPlayerName);
    b.style.font_family = Some("Inter".to_string());
    let mut c = ScoreboardComponent::new(ComponentType::TennisGameScore);
    c.style.font_family = Some("Mono".to_string());
    let d = ScoreboardComponent::new(ComponentType::Image);

    let mut families = collect_font_families(&[a, b, c, d]);
    families.sort();
    assert_eq!(families, vec!["Inter", "Mono"]);
}
