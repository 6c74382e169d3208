use scoreforge_display::domain::{CallOutcome, LiveDataMessage};
use scoreforge_display::wire::WireValue;
use scoreforge_display::protocol::{
    connect_failed, courts_response, pairing_poll_response, start_pairing_response,
    subscribe_failed, subscription_closed, subscription_item, tournaments_response,
    effective_poll_interval, WorkerState,
};

fn field(key: &str, v: WireValue) -> (String, WireValue) {
    (key.to_string(), v)
}

fn text(s: &str) -> WireValue {
    WireValue::Text(s.to_string())
}

fn error_message(m: &LiveDataMessage) -> Option<&str> {
    match m {
        LiveDataMessage::Error(e) => Some(e.as_str()),
        _ => None,
    }
}

fn pairing_start_value() -> WireValue {
    WireValue::Object(vec![
        field("pairingId", text("p-1")),
        field("pairingCode", text("ABCD")),
        field("pairingSecret", text("SECRET-REDACTED")),
        field("expiresAt", WireValue::Int64(1_700_000_000_000)),
        field("pollIntervalMs", WireValue::Int64(100)),
    ])
}

#[test]
fn poll_interval_is_clamped_to_the_floor() {
    assert_eq!(effective_poll_interval(100), 500);
    assert_eq!(effective_poll_interval(499), 500);
    assert_eq!(effective_poll_interval(500), 500);
    assert_eq!(effective_poll_interval(2000), 2000);
}

#[test]
fn start_pairing_success_emits_started_and_launches_session() {
    let (messages, session) = start_pairing_response(&CallOutcome::Value(pairing_start_value()));
    assert_eq!(
        messages,
        vec![LiveDataMessage::PairingStarted {
            pairing_code: "ABCD".to_string(),
            expires_at: 1_700_000_000_000,
        }]
    );
    let session = session.expect("session");
    assert_eq!(session.pairing_id, "p-1");
    assert_eq!(session.pairing_secret, "SECRET-REDACTED");
    assert_eq!(effective_poll_interval(session.poll_interval_ms), 500);
}

#[test]
fn malformed_pairing_start_with_embedded_error_spawns_nothing() {
    // The response lacks `pairingSecret` and carries an embedded error.
    let response = WireValue::Object(vec![
        field("pairingId", text("p-1")),
        field("pairingCode", text("ABCD")),
        field("error", text("Pairing not enabled")),
    ]);
    let (messages, session) = start_pairing_response(&CallOutcome::Value(response));
    assert_eq!(messages.len(), 1);
    assert_eq!(error_message(&messages[0]), Some("Pairing not enabled"));
    assert!(session.is_none());
}

#[test]
fn unrecognizable_pairing_start_is_a_generic_error() {
    let (messages, session) = start_pairing_response(&CallOutcome::Value(WireValue::Null));
    assert_eq!(error_message(&messages[0]), Some("Unexpected pairing response."));
    assert!(session.is_none());
}

#[test]
fn start_pairing_transport_failure_is_contextualized() {
    let (messages, session) =
        start_pairing_response(&CallOutcome::Transport("socket closed".to_string()));
    assert_eq!(
        error_message(&messages[0]),
        Some("Failed to start pairing: socket closed")
    );
    assert!(session.is_none());
    assert_eq!(
        error_message(&connect_failed("refused")),
        Some("Failed to connect: refused")
    );
}

#[test]
fn paired_poll_completes_exactly_once_and_stops() {
    let paired = WireValue::Object(vec![
        field("status", text("paired")),
        field("apiKey", text("SECRET-REDACTED")),
    ]);
    let (message, stop) = pairing_poll_response(&CallOutcome::Value(paired));
    assert_eq!(
        message,
        Some(LiveDataMessage::PairingCompleted { api_key: "SECRET-REDACTED".to_string() })
    );
    assert!(stop);
}

#[test]
fn poll_statuses_map_to_their_messages() {
    let with_status = |status: &str| {
        CallOutcome::Value(WireValue::Object(vec![field("status", text(status))]))
    };
    assert_eq!(pairing_poll_response(&with_status("pending")), (None, false));
    let (m, stop) = pairing_poll_response(&with_status("expired"));
    assert_eq!(m, Some(LiveDataMessage::PairingExpired));
    assert!(stop);
    let (m, stop) = pairing_poll_response(&with_status("claimed"));
    assert_eq!(error_message(m.as_ref().unwrap()), Some("Pairing was already claimed."));
    assert!(stop);
    let (m, stop) = pairing_poll_response(&with_status("invalid"));
    assert_eq!(error_message(m.as_ref().unwrap()), Some("Invalid pairing session."));
    assert!(stop);
    let (m, stop) = pairing_poll_response(&with_status("???"));
    assert_eq!(error_message(m.as_ref().unwrap()), Some("Unexpected pairing response."));
    assert!(stop);
    let (m, stop) = pairing_poll_response(&CallOutcome::Transport("timeout".to_string()));
    assert_eq!(error_message(m.as_ref().unwrap()), Some("Pairing poll failed: timeout"));
    assert!(stop);
}

#[test]
fn connect_scenario_yields_connected_then_tournament_list() {
    let mut worker = WorkerState::new();
    let mut observed: Vec<LiveDataMessage> = Vec::new();

    // `Connect{url:"https://x", api_key:"k"}`: the subscription sub-task
    // is cancelled, the connection opens, then tournaments are listed.
    worker.cancel_subscription_task();
    worker.connect_established("k".to_string());
    observed.push(LiveDataMessage::Connected);

    let response = WireValue::Object(vec![field(
        "tournaments",
        WireValue::Array(vec![
            WireValue::Object(vec![field("id", text("t1")), field("name", text("T1"))]),
            WireValue::Object(vec![field("id", text("t2")), field("name", text("T2"))]),
        ]),
    )]);
    observed.push(tournaments_response(&CallOutcome::Value(response)));

    assert_eq!(observed.len(), 2);
    assert_eq!(observed[0], LiveDataMessage::Connected);
    match &observed[1] {
        LiveDataMessage::TournamentList(list) => {
            assert_eq!(list.len(), 2);
            assert_eq!(list[0].name, "T1");
            assert_eq!(list[1].name, "T2");
        }
        other => panic!("expected a tournament list, got {other:?}"),
    }
    assert_eq!(worker.api_key.as_deref(), Some("k"));
    assert!(worker.connected);
}

#[test]
fn tournaments_response_surfaces_each_error_kind() {
    let embedded = WireValue::Object(vec![field("error", text("bad key"))]);
    assert_eq!(
        error_message(&tournaments_response(&CallOutcome::Value(embedded))),
        Some("bad key")
    );
    assert_eq!(
        error_message(&tournaments_response(&CallOutcome::ErrorMessage("denied".to_string()))),
        Some("denied")
    );
    assert_eq!(
        error_message(&tournaments_response(&CallOutcome::ConvexError("oops".to_string()))),
        Some("oops")
    );
    assert_eq!(
        error_message(&tournaments_response(&CallOutcome::Transport("reset".to_string()))),
        Some("Connection error: reset")
    );
}

#[test]
fn courts_response_deduplicates_and_reports_errors() {
    let response = WireValue::Object(vec![field(
        "matches",
        WireValue::Array(vec![
            WireValue::Object(vec![field("court", text("C1"))]),
            WireValue::Object(vec![field("court", text("C1"))]),
            WireValue::Object(vec![field("court", text("C2"))]),
        ]),
    )]);
    match courts_response(&CallOutcome::Value(response)) {
        LiveDataMessage::CourtList(mut courts) => {
            courts.sort();
            assert_eq!(courts, vec!["C1", "C2"]);
        }
        other => panic!("expected a court list, got {other:?}"),
    }
    assert_eq!(
        error_message(&courts_response(&CallOutcome::Transport("reset".to_string()))),
        Some("Fetch error: reset")
    );
    assert_eq!(
        error_message(&subscribe_failed("no such court")),
        Some("Subscribe error: no such court")
    );
}

#[test]
fn court_with_no_match_yields_exactly_one_sentinel_message() {
    let update = WireValue::Object(vec![field("match", WireValue::Null)]);
    let (message, stop) = subscription_item(&CallOutcome::Value(update));
    assert_eq!(message, Some(LiveDataMessage::CourtNoActiveMatch));
    assert!(!stop);
}

#[test]
fn subscription_updates_map_to_their_messages() {
    let snapshot_update = WireValue::Object(vec![field("match", WireValue::Object(vec![]))]);
    let (message, stop) = subscription_item(&CallOutcome::Value(snapshot_update));
    assert!(matches!(message, Some(LiveDataMessage::MatchDataUpdated(_))));
    assert!(!stop);

    let embedded = WireValue::Object(vec![field("error", text("court closed"))]);
    let (message, stop) = subscription_item(&CallOutcome::Value(embedded));
    assert_eq!(error_message(message.as_ref().unwrap()), Some("court closed"));
    assert!(!stop);

    // An unrecognized update is dropped silently and is not fatal.
    let (message, stop) = subscription_item(&CallOutcome::Value(WireValue::Object(vec![])));
    assert!(message.is_none());
    assert!(!stop);

    let (message, stop) = subscription_item(&CallOutcome::ErrorMessage("stream error".to_string()));
    assert_eq!(error_message(message.as_ref().unwrap()), Some("stream error"));
    assert!(stop);

    let (message, stop) = subscription_item(&CallOutcome::Transport("gone".to_string()));
    assert!(message.is_none());
    assert!(stop);

    assert_eq!(subscription_closed(), LiveDataMessage::Disconnected);
}

#[test]
fn new_subscription_silences_the_prior_sub_task() {
    let mut worker = WorkerState::new();
    worker.connect_established("k".to_string());
    worker.set_tournament("t1".to_string());
    assert!(worker.ready_for_subscribe());

    let first_gen = worker.spawn_subscription_task();
    assert!(worker.subscription_send_ok(first_gen));

    // `SelectCourt` while the first sub-task runs: cancel, then spawn anew.
    worker.cancel_subscription_task();
    let second_gen = worker.spawn_subscription_task();

    // The superseded sub-task's deliveries are refused; the fresh one's pass.
    assert!(!worker.subscription_send_ok(first_gen));
    assert!(worker.subscription_send_ok(second_gen));
}

#[test]
fn disconnect_during_pairing_emits_only_disconnected() {
    let mut worker = WorkerState::new();
    let mut observed: Vec<LiveDataMessage> = Vec::new();

    // `StartPairing` with a well-formed response launches the poll task.
    worker.cancel_pairing_task();
    let (messages, session) = start_pairing_response(&CallOutcome::Value(pairing_start_value()));
    assert!(session.is_some());
    observed.extend(messages);
    let poll_gen = worker.spawn_pairing_task();

    // `Disconnect` arrives before any poll response.
    observed.push(worker.disconnect());

    // A late poll result (even a successful pairing) is not delivered.
    let paired = WireValue::Object(vec![
        field("status", text("paired")),
        field("apiKey", text("SECRET-REDACTED")),
    ]);
    let (late_message, _stop) = pairing_poll_response(&CallOutcome::Value(paired));
    assert!(late_message.is_some());
    if worker.pairing_send_ok(poll_gen) {
        observed.push(late_message.unwrap());
    }

    assert_eq!(
        observed,
        vec![
            LiveDataMessage::PairingStarted {
                pairing_code: "ABCD".to_string(),
                expires_at: 1_700_000_000_000,
            },
            LiveDataMessage::Disconnected,
        ]
    );
    assert!(!observed.iter().any(|m| matches!(
        m,
        LiveDataMessage::PairingCompleted { .. } | LiveDataMessage::PairingExpired
    )));
    assert!(worker.api_key.is_none());
    assert!(!worker.connected);
}

#[test]
fn ready_checks_require_stored_state() {
    let mut worker = WorkerState::new();
    assert!(!worker.ready_for_matches());
    assert!(!worker.ready_for_subscribe());
    worker.connect_established("k".to_string());
    assert!(worker.ready_for_matches());
    assert!(!worker.ready_for_subscribe());
    worker.set_tournament("t1".to_string());
    assert!(worker.ready_for_subscribe());
}
