use newscope::api::{subscriber, acting_user, subscribe_message, ApiError, TokenCheck};
use newscope::catalog::Catalog;
use newscope::config::{endpoint_limits, fetch_timeout_seconds, sync_user, LlmConfig, LlmMode, RemoteLlmConfig, StoredUser, UserConfig};
use newscope::session::{chat_prompt, ArticleContext, ChatTurn, session_step, Phase, SessionAction, SessionEvent};

#[test]
fn api_errors_map_to_status_codes() {
    assert_eq!(ApiError::BadRequest.status_code(), 400);
    assert_eq!(ApiError::Unauthorized.status_code(), 401);
    assert_eq!(ApiError::NotFound.status_code(), 404);
    assert_eq!(ApiError::Conflict.status_code(), 409);
    assert_eq!(ApiError::Internal.status_code(), 500);
}

#[test]
fn acting_user_prefers_explicit_id() {
    assert_eq!(acting_user(Some(4), TokenCheck::Invalid), Ok(4));
    assert_eq!(acting_user(None, TokenCheck::Valid { sub: 9 }), Ok(9));
    assert_eq!(acting_user(None, TokenCheck::Invalid), Err(ApiError::Unauthorized));
    assert_eq!(acting_user(None, TokenCheck::Absent), Err(ApiError::BadRequest));
    assert_eq!(subscribe_message(true), Some("Already subscribed"));
    assert_eq!(subscribe_message(false), None);
}

#[test]
fn session_streams_cards_then_closes() {
    let (p, a) = session_step(Phase::Connected, SessionEvent::Opened { has_history: false });
    assert_eq!(a, SessionAction::GreetAndAssemble);
    let (p, a) = session_step(p, SessionEvent::DigestReady { cards: 2 });
    assert_eq!(a, SessionAction::SendCard { index: 0 });
    let (p, a) = session_step(p, SessionEvent::Rate { rating: 5 });
    assert_eq!(a, SessionAction::StoreRating);
    let (p, a) = session_step(p, SessionEvent::CardSent);
    assert_eq!(a, SessionAction::SendCard { index: 1 });
    let (p, a) = session_step(p, SessionEvent::CardSent);
    assert_eq!((p, a), (Phase::Idle, SessionAction::Close));
    let (p, a) = session_step(p, SessionEvent::Rate { rating: 0 });
    assert_eq!(a, SessionAction::RejectRating);
    let (p, a) = session_step(p, SessionEvent::UserMessage);
    assert_eq!((p, a), (Phase::Idle, SessionAction::Answer));
    assert_eq!(session_step(p, SessionEvent::Disconnected), (Phase::Closed, SessionAction::Nothing));
}

#[test]
fn session_with_history_replays_it() {
    assert_eq!(
        session_step(Phase::Connected, SessionEvent::Opened { has_history: true }),
        (Phase::Idle, SessionAction::ReplayHistory)
    );
    assert_eq!(
        session_step(Phase::Assembling, SessionEvent::DigestReady { cards: 0 }),
        (Phase::Idle, SessionAction::NoArticles)
    );
}

#[test]
fn feed_items_are_stored_once() {
    let mut c = Catalog::new();
    let links = vec!["http://a/1".to_string(), String::new(), "http://a/2".to_string(), "http://a/1".to_string()];
    let new_ids = c.store_feed_items(1, &links);
    assert_eq!(new_ids, vec![1, 2]);
    assert_eq!(c.articles.len(), 2);
    assert_eq!(c.occurrences, vec![(1, 1), (2, 1)]);
    let again = c.store_feed_items(2, &vec!["http://a/2".to_string(), "http://a/3".to_string()]);
    assert_eq!(again, vec![3]);
    assert_eq!(c.occurrences.len(), 4);
}

fn endpoint(model: &str) -> RemoteLlmConfig {
    RemoteLlmConfig { api_url: None, api_key_env: None, model: Some(model.to_string()), timeout_seconds: None, max_tokens: Some(64) }
}

#[test]
fn llm_modes_fall_back_to_one_section() {
    let mut c = LlmConfig {
        adapter: Some("remote".to_string()),
        local: None,
        remote: None,
        summarization: None,
        personalization: None,
        embedding: None,
        interaction: None,
        background: Some(endpoint("bg")),
        interactive: None,
    };
    assert_eq!(c.endpoint_for(LlmMode::Interactive).unwrap().model.as_deref(), Some("bg"));
    c.remote = Some(endpoint("remote"));
    assert_eq!(c.endpoint_for(LlmMode::Interactive).unwrap().model.as_deref(), Some("remote"));
    assert_eq!(c.endpoint_for(LlmMode::Background).unwrap().model.as_deref(), Some("bg"));
    assert_eq!(endpoint_limits(&endpoint("x")), (30, 64));
    assert_eq!(fetch_timeout_seconds(None), 10);
}

#[test]
fn roster_sync_keeps_missing_fields() {
    let stored = StoredUser { username: "alice".to_string(), display_name: Some("Alice".to_string()), password_hash: Some("h1".to_string()) };
    let cfg = UserConfig { username: "alice".to_string(), display_name: None, preferred_language: None, password_hash: Some("h2".to_string()), feeds: vec![] };
    let r = sync_user(Some(stored), cfg);
    assert_eq!(r.display_name.as_deref(), Some("Alice"));
    assert_eq!(r.password_hash.as_deref(), Some("h2"));
}

#[test]
fn unknown_users_are_unauthorized() {
    assert_eq!(subscriber(Some(3), TokenCheck::Absent, &vec![1, 2, 3]), Ok(3));
    assert_eq!(subscriber(Some(9), TokenCheck::Absent, &vec![1, 2, 3]), Err(ApiError::Unauthorized));
    assert_eq!(subscriber(None, TokenCheck::Absent, &vec![1]), Err(ApiError::BadRequest));
}

#[test]
fn chat_prompt_keeps_last_ten_messages() {
    let history: Vec<ChatTurn> = (0..12)
        .map(|i| ChatTurn { author: "user".to_string(), message: format!("m{}", i) })
        .collect();
    let arts = vec![ArticleContext { title: "T".to_string(), summary: "S".to_string(), content: Some("x".repeat(600)) }];
    let p = chat_prompt("fr", &arts, &history, "hello");
    assert!(p.contains("You MUST answer in French."));
    assert!(!p.contains("user: m1\n"));
    assert!(p.contains("user: m2\n"));
    assert!(p.contains(&format!("Content Snippet: {}...\n", "x".repeat(500))));
    assert!(p.ends_with("user: hello\nassistant:"));
}
