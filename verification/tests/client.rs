use bitcoin_inscriber::client::{is_success_status, FetchReply, FETCH_TIMEOUT_SECS};
use bitcoin_inscriber::error::FetchError;
use bitcoin_inscriber::inscriber::Slop100Inscriber;
use bitcoin_inscriber::leaderboard::{LeaderboardData, LeaderboardEntry, LeaderboardMetadata};
use bitcoin_inscriber::mode::Mode;

fn entry(position: u32, title: &str) -> LeaderboardEntry {
    LeaderboardEntry {
        position,
        title: title.to_string(),
        artist: "The Slops".to_string(),
        last_week: if position == 1 { None } else { Some(position - 1) },
        peak_position: 1,
        weeks_on_chart: 4,
        is_new: position == 1,
        has_gains: false,
        is_award: position == 2,
    }
}

fn snapshot(total_entries: u32, positions: &[u32]) -> LeaderboardData {
    LeaderboardData {
        metadata: LeaderboardMetadata {
            chart: "Slop 100".to_string(),
            week: "2024-W01".to_string(),
            description: "Weekly chart".to_string(),
            timestamp: "2024-01-01T00:00:00Z".to_string(),
            total_entries,
        },
        rankings: positions.iter().map(|p| entry(*p, "Song")).collect(),
    }
}

fn default_inscriber() -> Slop100Inscriber {
    Slop100Inscriber::new(None, None, None, None, None)
}

#[test]
fn test_fetch_leaderboard() {
    let inscriber = default_inscriber();
    let request = inscriber.fetch_request();
    assert_eq!(
        request.url,
        "https://same-bf8ljyus7gw-latest.netlify.app/api/leaderboard"
    );
}

#[test]
fn new_falls_back_to_every_default() {
    let inscriber = default_inscriber();
    assert_eq!(inscriber.api_base_url, "https://same-bf8ljyus7gw-latest.netlify.app");
    assert_eq!(inscriber.bitcoin_rpc_url, "http://localhost:8332");
    assert_eq!(inscriber.bitcoin_rpc_user, "bitcoin");
    assert_eq!(inscriber.bitcoin_rpc_password, "password");
    assert_eq!(inscriber.wallet_name, "slop100");
}

#[test]
fn new_takes_each_configured_value() {
    let inscriber = Slop100Inscriber::new(
        Some("http://api.test".to_string()),
        Some("http://node.test:18332".to_string()),
        Some("alice".to_string()),
        Some("hunter2".to_string()),
        Some("charts".to_string()),
    );
    assert_eq!(inscriber.api_base_url, "http://api.test");
    assert_eq!(inscriber.bitcoin_rpc_url, "http://node.test:18332");
    assert_eq!(inscriber.bitcoin_rpc_user, "alice");
    assert_eq!(inscriber.bitcoin_rpc_password, "hunter2");
    assert_eq!(inscriber.wallet_name, "charts");
}

#[test]
fn new_mixes_configured_values_and_defaults() {
    let inscriber =
        Slop100Inscriber::new(None, None, Some("alice".to_string()), None, Some(String::new()));
    assert_eq!(inscriber.api_base_url, "https://same-bf8ljyus7gw-latest.netlify.app");
    assert_eq!(inscriber.bitcoin_rpc_user, "alice");
    assert_eq!(inscriber.bitcoin_rpc_password, "password");
    assert_eq!(inscriber.wallet_name, "");
}

#[test]
fn fetch_request_appends_the_fixed_path_and_timeout() {
    let inscriber =
        Slop100Inscriber::new(Some("http://api.test".to_string()), None, None, None, None);
    let request = inscriber.fetch_request();
    assert_eq!(request.url, "http://api.test/api/leaderboard");
    assert_eq!(request.timeout_secs, 30);
    assert_eq!(FETCH_TIMEOUT_SECS, 30);
}

#[test]
fn success_range_is_200_to_299() {
    assert!(!is_success_status(0));
    assert!(!is_success_status(199));
    assert!(is_success_status(200));
    assert!(is_success_status(204));
    assert!(is_success_status(299));
    assert!(!is_success_status(300));
    assert!(!is_success_status(404));
    assert!(!is_success_status(500));
    assert!(!is_success_status(u16::MAX));
}

#[test]
fn unanswered_request_is_a_transport_error() {
    let result = default_inscriber().fetch_leaderboard(FetchReply::Unreachable);
    assert_eq!(result, Err(FetchError::Transport));
}

#[test]
fn failure_status_is_a_remote_error_with_that_status() {
    let inscriber = default_inscriber();
    let result = inscriber.fetch_leaderboard(FetchReply::Answered { status: 500, body: None });
    assert_eq!(result, Err(FetchError::Remote { status: 500 }));
    let result = inscriber.fetch_leaderboard(FetchReply::Answered { status: 404, body: None });
    assert_eq!(result, Err(FetchError::Remote { status: 404 }));
}

#[test]
fn failure_status_wins_over_a_decodable_body() {
    let reply = FetchReply::Answered { status: 302, body: Some(snapshot(1, &[1])) };
    assert_eq!(
        default_inscriber().fetch_leaderboard(reply),
        Err(FetchError::Remote { status: 302 })
    );
}

#[test]
fn success_without_a_snapshot_is_a_decode_error() {
    let result =
        default_inscriber().fetch_leaderboard(FetchReply::Answered { status: 200, body: None });
    assert_eq!(result, Err(FetchError::Decode));
}

#[test]
fn success_with_a_snapshot_yields_it_unchanged() {
    let data = snapshot(3, &[1, 2, 3]);
    let reply = FetchReply::Answered { status: 200, body: Some(data.clone()) };
    assert_eq!(default_inscriber().fetch_leaderboard(reply), Ok(data));
}

#[test]
fn inconsistent_snapshot_is_fetched_all_the_same() {
    let data = snapshot(7, &[1, 1]);
    assert!(!data.is_consistent());
    let reply = FetchReply::Answered { status: 299, body: Some(data.clone()) };
    assert_eq!(default_inscriber().fetch_leaderboard(reply), Ok(data));
}

#[test]
fn consistent_snapshot_is_recognised() {
    assert!(snapshot(3, &[1, 2, 3]).is_consistent());
    assert!(snapshot(3, &[3, 1, 2]).is_consistent());
    assert!(snapshot(0, &[]).is_consistent());
    assert!(snapshot(1, &[u32::MAX]).is_consistent());
}

#[test]
fn count_mismatch_is_inconsistent() {
    assert!(!snapshot(2, &[1, 2, 3]).is_consistent());
    assert!(!snapshot(4, &[1, 2, 3]).is_consistent());
    assert!(!snapshot(1, &[]).is_consistent());
}

#[test]
fn zero_position_is_inconsistent() {
    assert!(!snapshot(3, &[1, 0, 3]).is_consistent());
    assert!(!snapshot(1, &[0]).is_consistent());
}

#[test]
fn repeated_position_is_inconsistent() {
    assert!(!snapshot(3, &[1, 2, 1]).is_consistent());
    assert!(!snapshot(2, &[5, 5]).is_consistent());
    assert!(!snapshot(4, &[1, 2, 3, 3]).is_consistent());
}

#[test]
fn mode_words() {
    assert_eq!(Mode::parse("once"), Some(Mode::Once));
    assert_eq!(Mode::parse("schedule"), Some(Mode::Schedule));
    assert_eq!(Mode::parse(""), None);
    assert_eq!(Mode::parse("Once"), None);
    assert_eq!(Mode::parse("once "), None);
    assert_eq!(Mode::parse("daily"), None);
}
