use rustle::feed::{Cursor, FeedController, FeedKey, FetchCommand, FetchKind, FetchSuccess, LoadingState};
use rustle::post::Post;

fn post(title: &str) -> Post {
    Post {
        title: title.to_string(),
        author: "someone".to_string(),
        subreddit: "rust".to_string(),
        score: 1,
        url: "https://example.com/post".to_string(),
        thumbnail: "https://example.com/thumb.jpg".to_string(),
        preview: None,
    }
}

fn page(titles: &[&str], after: Option<&str>) -> FetchSuccess {
    FetchSuccess {
        posts: titles.iter().map(|t| post(t)).collect(),
        after: after.map(|a| a.to_string()),
    }
}

#[test]
fn new_controller_is_idle_on_home() {
    let c = FeedController::new();
    assert_eq!(c.current_feed().name(), "home");
    assert!(c.posts().is_empty());
    assert!(!c.is_fetching());
    assert!(matches!(c.cursor(), Cursor::Start));
    assert!(c.error_message().is_none());
    assert!(matches!(c.loading_state(), LoadingState::Idle));
}

#[test]
fn single_flight_drops_commands_while_busy() {
    let mut c = FeedController::new();
    let first = c.switch_feed(FeedKey::Subreddit("rust".to_string()));
    assert!(first.is_some());
    assert!(c.is_fetching());

    // Every further command is a no-op until the fetch completes.
    assert!(c.switch_feed(FeedKey::Subreddit("golang".to_string())).is_none());
    assert!(c.load_more().is_none());
    assert!(c.refresh().is_none());
    assert_eq!(c.current_feed().name(), "rust");
    assert!(c.is_fetching());
}

#[test]
fn initial_fetch_replaces_posts() {
    let mut c = FeedController::new();
    let cmd = c.switch_feed(FeedKey::Home).unwrap();
    assert!(matches!(cmd.cursor, Cursor::Start));
    c.complete_fetch(cmd, Ok(page(&["a", "b"], Some("t3_a"))));
    assert_eq!(c.posts().len(), 2);
    assert_eq!(c.posts()[0].title, "a");
    assert_eq!(c.posts()[1].title, "b");
    assert!(!c.is_fetching());
}

#[test]
fn later_fetch_appends_in_order() {
    let mut c = FeedController::new();
    let cmd = c.switch_feed(FeedKey::Home).unwrap();
    c.complete_fetch(cmd, Ok(page(&["a", "b"], Some("t3_a"))));

    let cmd2 = c.load_more().unwrap();
    assert!(matches!(&cmd2.cursor, Cursor::Token(t) if t == "t3_a"));
    c.complete_fetch(cmd2, Ok(page(&["c"], None)));
    let titles: Vec<&str> = c.posts().iter().map(|p| p.title.as_str()).collect();
    assert_eq!(titles, vec!["a", "b", "c"]);
}

#[test]
fn load_more_without_cursor_but_with_posts_appends() {
    let mut c = FeedController::new();
    let cmd = c.switch_feed(FeedKey::Home).unwrap();
    // The provider omitted the cursor even though more pages may exist.
    c.complete_fetch(cmd, Ok(page(&["a"], None)));
    assert!(matches!(c.cursor(), Cursor::Start));

    // The next fetch must not present itself as a fresh load.
    let cmd2 = c.load_more().unwrap();
    assert!(matches!(cmd2.cursor, Cursor::Unknown));
    c.complete_fetch(cmd2, Ok(page(&["b"], None)));
    let titles: Vec<&str> = c.posts().iter().map(|p| p.title.as_str()).collect();
    assert_eq!(titles, vec!["a", "b"]);
}

#[test]
fn stale_result_is_discarded() {
    let mut c = FeedController::new();
    let cmd = c.switch_feed(FeedKey::Subreddit("golang".to_string())).unwrap();

    // A completion tagged with another feed must not touch golang's state.
    let stale = FetchCommand {
        key: FeedKey::Subreddit("rust".to_string()),
        kind: FetchKind::Initial,
        cursor: Cursor::Start,
    };
    c.complete_fetch(stale, Ok(page(&["stale"], Some("t3_stale"))));
    assert!(c.posts().is_empty());
    assert!(c.is_fetching());
    assert!(matches!(c.cursor(), Cursor::Start));

    // The genuine completion still lands.
    c.complete_fetch(cmd, Ok(page(&["fresh"], None)));
    assert_eq!(c.posts().len(), 1);
    assert_eq!(c.posts()[0].title, "fresh");
}

#[test]
fn cursor_resets_on_switch_and_tracks_completions() {
    let mut c = FeedController::new();
    let cmd = c.switch_feed(FeedKey::Home).unwrap();
    c.complete_fetch(cmd, Ok(page(&["a"], Some("t3_a"))));
    assert!(matches!(c.cursor(), Cursor::Token(t) if t == "t3_a"));

    let cmd = c.switch_feed(FeedKey::Subreddit("rust".to_string())).unwrap();
    assert!(matches!(c.cursor(), Cursor::Start));
    c.complete_fetch(cmd, Ok(page(&["b"], None)));
    assert!(matches!(c.cursor(), Cursor::Start));
}

#[test]
fn trigger_cooldown_allows_at_most_one_fetch_per_window() {
    let mut c = FeedController::new();
    let cmd = c.switch_feed(FeedKey::Home).unwrap();
    c.complete_fetch(cmd, Ok(page(&["a"], Some("t3_a"))));

    let first = c.trigger_load_more_if_near_bottom(0, 1_000);
    let first = first.expect("near the bottom and idle: the trigger must fire");
    c.complete_fetch(first, Ok(page(&["b"], Some("t3_b"))));

    // Within the window nothing more fires, however often it is polled.
    assert!(c.trigger_load_more_if_near_bottom(0, 1_100).is_none());
    assert!(c.trigger_load_more_if_near_bottom(0, 1_250).is_none());
    assert!(c.trigger_load_more_if_near_bottom(0, 1_499).is_none());

    // Once the window lapses the next trigger fires again.
    assert!(c.trigger_load_more_if_near_bottom(0, 1_500).is_some());
}

#[test]
fn trigger_requires_proximity_and_idleness() {
    let mut c = FeedController::new();
    let cmd = c.switch_feed(FeedKey::Home).unwrap();
    c.complete_fetch(cmd, Ok(page(&["a"], Some("t3_a"))));

    // Far from the bottom: no fetch.
    assert!(c.trigger_load_more_if_near_bottom(1_500, 10).is_none());
    // Near the bottom but busy: no fetch.
    let pending = c.load_more().unwrap();
    assert!(c.trigger_load_more_if_near_bottom(0, 10).is_none());
    c.complete_fetch(pending, Ok(page(&["b"], None)));
}

#[test]
fn trigger_threshold_boundary() {
    let mut c = FeedController::new();
    let cmd = c.switch_feed(FeedKey::Home).unwrap();
    c.complete_fetch(cmd, Ok(page(&["a"], Some("t3_a"))));

    // 1500 units away is not yet near; 1499 is.
    assert!(c.trigger_load_more_if_near_bottom(1_500, 10).is_none());
    assert!(c.trigger_load_more_if_near_bottom(1_499, 10).is_some());
}

#[test]
fn refresh_refetches_the_current_feed() {
    let mut c = FeedController::new();
    let cmd = c.switch_feed(FeedKey::Subreddit("rust".to_string())).unwrap();
    c.complete_fetch(cmd, Ok(page(&["a"], Some("t3_a"))));

    let cmd = c.refresh().unwrap();
    assert_eq!(cmd.key.name(), "rust");
    assert!(matches!(cmd.cursor, Cursor::Start));
    assert!(matches!(cmd.kind, FetchKind::Initial));
    // A refresh starts over: the list is cleared until the fetch lands.
    assert!(c.posts().is_empty());
    assert!(matches!(c.cursor(), Cursor::Start));
    c.complete_fetch(cmd, Ok(page(&["b"], None)));
    assert_eq!(c.posts()[0].title, "b");
    assert_eq!(c.current_feed().name(), "rust");
}

#[test]
fn error_is_recorded_and_cleared_on_next_success() {
    let mut c = FeedController::new();
    let cmd = c.switch_feed(FeedKey::Home).unwrap();
    c.complete_fetch(cmd, Err("Error fetching posts: Failed to parse Reddit listing".to_string()));
    assert!(c.posts().is_empty());
    assert!(!c.is_fetching());
    match c.loading_state() {
        LoadingState::Error(m) => {
            assert_eq!(m, "Error fetching posts: Failed to parse Reddit listing")
        },
        other => panic!("expected the recorded error, got {:?}", other),
    }

    // The error stays until a successful operation clears it.
    let cmd = c.refresh().unwrap();
    c.complete_fetch(cmd, Ok(page(&["a"], None)));
    assert!(c.error_message().is_none());
    assert!(matches!(c.loading_state(), LoadingState::Idle));
}

#[test]
fn dismiss_error_clears_it() {
    let mut c = FeedController::new();
    let cmd = c.switch_feed(FeedKey::Home).unwrap();
    c.complete_fetch(cmd, Err("Authentication error: Reddit API error: invalid_grant".to_string()));
    assert!(c.error_message().is_some());
    c.dismiss_error();
    assert!(c.error_message().is_none());
}

#[test]
fn loading_state_names_the_fetch_kind() {
    let mut c = FeedController::new();
    let cmd = c.switch_feed(FeedKey::Home).unwrap();
    assert!(matches!(c.loading_state(), LoadingState::InitialLoading));
    c.complete_fetch(cmd, Ok(page(&["a"], Some("t3_a"))));
    let cmd = c.load_more().unwrap();
    assert!(matches!(c.loading_state(), LoadingState::LoadingMore));
    c.complete_fetch(cmd, Ok(page(&["b"], None)));
    assert!(matches!(c.loading_state(), LoadingState::Idle));
}

#[test]
fn scenario_two_pages_of_home() {
    let session = rustle::api::classify_auth_response(200, "{\"access_token\": \"tok\"}")
        .expect("good credentials must yield a session");
    assert_eq!(rustle::api::bearer_header(&session), "Bearer tok");

    let mut c = FeedController::new();
    let cmd = c.switch_feed(FeedKey::Home).unwrap();
    let first_page: Vec<String> = (0..25).map(|i| format!("post {}", i)).collect();
    let first_refs: Vec<&str> = first_page.iter().map(|s| s.as_str()).collect();
    c.complete_fetch(cmd, Ok(page(&first_refs, Some("t3_abc"))));
    assert_eq!(c.posts().len(), 25);
    assert!(matches!(c.cursor(), Cursor::Token(t) if t == "t3_abc"));

    let cmd2 = c.load_more().unwrap();
    assert!(matches!(&cmd2.cursor, Cursor::Token(t) if t == "t3_abc"));
    assert_eq!(
        rustle::api::listing_url(&cmd2.key, &cmd2.cursor),
        "https://oauth.reddit.com/?after=t3_abc"
    );
    c.complete_fetch(cmd2, Ok(page(&["x", "y", "z"], None)));
    assert_eq!(c.posts().len(), 28);
}

#[test]
fn scenario_rejected_credentials_leave_feed_idle_with_message() {
    let mut c = FeedController::new();
    let cmd = c.switch_feed(FeedKey::Home).unwrap();

    let auth = rustle::api::classify_auth_response(401, "{\"error\": \"invalid_grant\"}");
    let err = auth.expect_err("a provider error payload must be rejected");
    assert!(matches!(&err, rustle::api::AuthError::ProviderRejected(m) if m == "invalid_grant"));

    c.complete_fetch(cmd, Err(rustle::api::auth_failure_message(&err)));
    assert!(c.posts().is_empty());
    assert!(!c.is_fetching());
    match c.loading_state() {
        LoadingState::Error(m) => {
            assert_eq!(m, "Authentication error: Reddit API error: invalid_grant")
        },
        other => panic!("expected the auth error, got {:?}", other),
    }
}

#[test]
fn scenario_switch_during_switch_is_dropped_then_discarded() {
    let mut c = FeedController::new();
    let rust_cmd = c.switch_feed(FeedKey::Subreddit("rust".to_string())).unwrap();

    // The burst while busy is dropped, not queued.
    assert!(c.switch_feed(FeedKey::Subreddit("golang".to_string())).is_none());
    assert_eq!(c.current_feed().name(), "rust");

    // Once rust completes, the user clicks golang again; rust's state is
    // replaced and a late rust result can no longer touch golang's list.
    c.complete_fetch(rust_cmd, Ok(page(&["rust post"], Some("t3_r"))));
    let golang_cmd = c.switch_feed(FeedKey::Subreddit("golang".to_string())).unwrap();
    let late_rust = FetchCommand {
        key: FeedKey::Subreddit("rust".to_string()),
        kind: FetchKind::More,
        cursor: Cursor::Token("t3_r".to_string()),
    };
    c.complete_fetch(late_rust, Ok(page(&["late rust post"], None)));
    assert!(c.posts().is_empty());

    c.complete_fetch(golang_cmd, Ok(page(&["golang post"], None)));
    assert_eq!(c.current_feed().name(), "golang");
    let titles: Vec<&str> = c.posts().iter().map(|p| p.title.as_str()).collect();
    assert_eq!(titles, vec!["golang post"]);
}

#[test]
fn scenario_subscribed_feeds_listing() {
    let mut c = FeedController::new();
    assert!(c.begin_subscriptions_fetch());
    // Single-flight on the subreddit list as well.
    assert!(!c.begin_subscriptions_fetch());
    c.complete_subscriptions_fetch(Ok(vec!["aww".to_string(), "pics".to_string()]));

    let names: Vec<String> = c.feed_entries().iter().map(|k| k.name()).collect();
    assert_eq!(names, vec!["home", "aww", "pics"]);
    assert!(matches!(c.feed_entries()[0], FeedKey::Home));
}

#[test]
fn subscriptions_success_clears_error() {
    let mut c = FeedController::new();
    let cmd = c.switch_feed(FeedKey::Home).unwrap();
    c.complete_fetch(cmd, Err("Error fetching posts: Not authenticated".to_string()));
    assert!(c.error_message().is_some());

    assert!(c.begin_subscriptions_fetch());
    c.complete_subscriptions_fetch(Ok(vec!["aww".to_string()]));
    assert!(c.error_message().is_none());
    assert_eq!(c.subscribed_feeds().len(), 1);
}

#[test]
fn subscriptions_failure_records_message() {
    let mut c = FeedController::new();
    assert!(c.begin_subscriptions_fetch());
    c.complete_subscriptions_fetch(Err("Error fetching subreddits: Not authenticated".to_string()));
    assert!(c.subscribed_feeds().is_empty());
    assert_eq!(
        c.error_message().as_deref(),
        Some("Error fetching subreddits: Not authenticated")
    );
    // Ready for another attempt.
    assert!(c.begin_subscriptions_fetch());
}

#[test]
fn should_reset_scroll_cases() {
    let mut c = FeedController::new();
    // Empty list outside the settings form.
    assert!(c.should_reset_scroll(false));
    // Empty list, but the settings form is open.
    assert!(!c.should_reset_scroll(true));

    let cmd = c.switch_feed(FeedKey::Home).unwrap();
    c.complete_fetch(cmd, Ok(page(&["a"], None)));
    assert!(!c.should_reset_scroll(false));

    let cmd = c.load_more().unwrap();
    c.complete_fetch(cmd, Err("boom".to_string()));
    assert!(c.should_reset_scroll(false));
}
