use mcstatus_watch::poll::PollState;
use mcstatus_watch::poll::process_fetch;
use mcstatus_watch::status::FetchError;
use mcstatus_watch::status::ServerStatus;
use mcstatus_watch::tracker::evaluate;

fn online_status(players: u32) -> ServerStatus {
    ServerStatus {
        online: true,
        host: String::from("mc.example.com"),
        port: 25565,
        player_count: Some(players),
    }
}

fn offline_status() -> ServerStatus {
    ServerStatus {
        online: false,
        host: String::from("mc.example.com"),
        port: 25565,
        player_count: None,
    }
}

#[test]
fn first_fetch_online_notifies_with_players() {
    // Scenario: the very first observation reports the server online.
    let (state, note) = process_fetch(PollState::AwaitingFirstFetch, Ok(online_status(5)));
    assert_eq!(state, PollState::Steady(true));
    let note = note.expect("first successful fetch must notify");
    assert_eq!(note.app_name.as_deref(), Some("Minecraft Server Status"));
    assert_eq!(note.title, "Server is online");
    assert_eq!(note.body, "mc.example.com:25565 is online with 5 players");
}

#[test]
fn unchanged_online_state_stays_silent() {
    // Scenario: a later fetch still reports online; only the player count
    // moved, which is no state change.
    let (state, note) = process_fetch(PollState::Steady(true), Ok(online_status(9)));
    assert_eq!(state, PollState::Steady(true));
    assert!(note.is_none());
}

#[test]
fn transition_to_offline_notifies_without_players() {
    let (state, note) = process_fetch(PollState::Steady(true), Ok(offline_status()));
    assert_eq!(state, PollState::Steady(false));
    let note = note.expect("a state change must notify");
    assert_eq!(note.app_name.as_deref(), Some("Minecraft Server Status"));
    assert_eq!(note.title, "Server is offline");
    assert_eq!(note.body, "mc.example.com:25565 is offline");
}

#[test]
fn transport_error_leaves_state_and_warns() {
    // Scenario: a transport failure after the server was seen offline.
    let (state, note) = process_fetch(PollState::Steady(false), Err(FetchError::Transport));
    assert_eq!(state, PollState::Steady(false));
    let note = note.expect("a failed fetch must emit the failure notification");
    assert!(note.app_name.is_none());
    assert_eq!(note.title, "Failed to get server status");
    assert_eq!(note.body, "Please check your internet connection");

    // The next successful fetch compares against the preserved `false`, not
    // against a fresh "unknown" sentinel: coming back online notifies.
    let (state, note) = process_fetch(state, Ok(online_status(3)));
    assert_eq!(state, PollState::Steady(true));
    assert!(note.is_some());
}

#[test]
fn parse_error_leaves_state_and_warns() {
    let (state, note) = process_fetch(PollState::Steady(true), Err(FetchError::Parse));
    assert_eq!(state, PollState::Steady(true));
    let note = note.expect("a failed fetch must emit the failure notification");
    assert!(note.app_name.is_none());
    assert_eq!(note.title, "Failed to get server status");
}

#[test]
fn online_without_players_is_a_schema_violation() {
    // Scenario: `online: true` with the player block absent is a contract
    // violation, surfaced as a fetch error rather than a crash.
    let classified = ServerStatus::from_parts(true, String::from("mc.example.com"), 25565, None);
    assert_eq!(classified.unwrap_err(), FetchError::SchemaViolation);

    let (state, note) = process_fetch(PollState::Steady(true), Err(FetchError::SchemaViolation));
    assert_eq!(state, PollState::Steady(true));
    assert_eq!(note.expect("failure must notify").title, "Failed to get server status");
}

#[test]
fn valid_parts_classify_as_status() {
    let st = ServerStatus::from_parts(true, String::from("mc.example.com"), 25565, Some(12))
        .expect("online with players is valid");
    assert!(st.online);
    assert_eq!(st.host, "mc.example.com");
    assert_eq!(st.port, 25565);
    assert_eq!(st.player_count, Some(12));

    let st = ServerStatus::from_parts(false, String::from("mc.example.com"), 25565, None)
        .expect("offline without players is valid");
    assert!(!st.online);
    assert_eq!(st.player_count, None);
}

#[test]
fn first_success_notifies_even_after_failures() {
    // First-notification: failed fetches do not use up the forced first
    // notification, and a first observation of "offline" notifies too.
    let mut state = PollState::AwaitingFirstFetch;
    for _ in 0..3 {
        let (next, note) = process_fetch(state, Err(FetchError::Transport));
        assert_eq!(next, PollState::AwaitingFirstFetch);
        assert!(note.is_some());
        state = next;
    }
    let (state, note) = process_fetch(state, Ok(offline_status()));
    assert_eq!(state, PollState::Steady(false));
    assert_eq!(note.expect("first success must notify").title, "Server is offline");
}

#[test]
fn equal_observations_notify_exactly_once() {
    // No-duplicate: a run of equal observations yields one notification in
    // total, at its start.
    let mut state = PollState::AwaitingFirstFetch;
    let mut notes: usize = 0;
    for players in [5, 9, 2, 7] {
        let (next, note) = process_fetch(state, Ok(online_status(players)));
        if note.is_some() {
            notes += 1;
        }
        state = next;
    }
    assert_eq!(notes, 1);
    assert_eq!(state, PollState::Steady(true));
}

#[test]
fn change_detection_across_interleaved_failures() {
    // Change-detection: consecutive successes are compared even when failed
    // fetches lie between them.
    let (state, _) = process_fetch(PollState::AwaitingFirstFetch, Ok(online_status(1)));
    let (state, note) = process_fetch(state, Err(FetchError::Transport));
    assert!(note.is_some());
    let (state, note) = process_fetch(state, Ok(offline_status()));
    assert_eq!(state, PollState::Steady(false));
    assert_eq!(note.expect("online to offline must notify").title, "Server is offline");
}

#[test]
fn evaluate_follows_the_decision_rule() {
    let st = online_status(4);
    // No change, no force: silent.
    let (next, note) = evaluate(true, &st, false);
    assert!(next);
    assert!(note.is_none());
    // No change, forced: notifies.
    let (_, note) = evaluate(true, &st, true);
    assert_eq!(note.expect("forced evaluation notifies").title, "Server is online");
    // Change: notifies.
    let (next, note) = evaluate(false, &st, false);
    assert!(next);
    assert_eq!(note.expect("change notifies").body, "mc.example.com:25565 is online with 4 players");
}
