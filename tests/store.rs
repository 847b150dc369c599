use newscope::catalog::Catalog;
use newscope::jobs::{next_status, JobEvent, JobStatus, ProcessingJob};
use newscope::personalize::{
    interests_text,
    personalized_or_generic, relevance_or_default, target_length, user_summary_record,
    RelevanceEvaluation, SummaryLength, UserProfile,
};
use newscope::llm::{Summary, UsageMetadata};

#[test]
fn subscribe_dedupes_feed() {
    let mut c = Catalog::new();
    let a = c.subscribe(1, "http://x.example/rss");
    let b = c.subscribe(2, "http://x.example/rss");
    assert_eq!(c.feeds.len(), 1);
    assert_eq!(c.subscriptions.len(), 2);
    assert_eq!(a.feed_id, b.feed_id);
}

#[test]
fn idempotent_subscribe() {
    let mut c = Catalog::new();
    let first = c.subscribe(1, "http://x.example/rss");
    let again = c.subscribe(1, "http://x.example/rss");
    assert!(!first.already_subscribed);
    assert!(again.already_subscribed);
    assert_eq!(first.subscription_id, again.subscription_id);
    assert_eq!(first.feed_id, again.feed_id);
    assert_eq!(c.subscriptions.len(), 1);
}

#[test]
fn articles_and_views_are_unique() {
    let mut c = Catalog::new();
    assert_eq!(c.upsert_article("http://a/1"), (1, true));
    assert_eq!(c.upsert_article("http://a/2"), (2, true));
    assert_eq!(c.upsert_article("http://a/1"), (1, false));
    assert!(c.record_occurrence(1, 1));
    assert!(!c.record_occurrence(1, 1));
    assert!(c.record_view(7, 1));
    assert!(!c.record_view(7, 1));
    assert!(c.record_view(8, 1));
    assert_eq!(c.viewed_by(7), vec![1]);
    assert_eq!(c.views.len(), 2);
}

fn profile() -> UserProfile {
    let mut p = UserProfile::with_defaults(3);
    p.language = "fr".to_string();
    p.complexity_level = "simple".to_string();
    p
}

fn personalized(score: u32) -> newscope::personalize::PersonalizedSummary {
    let generic = Summary {
        headline: "G".to_string(),
        bullets: vec!["b".to_string()],
        details: None,
        usage: UsageMetadata::zero(),
    };
    personalized_or_generic(None, generic, score, UsageMetadata::zero())
}

#[test]
fn user_summary_kept_only_when_relevant() {
    let low = RelevanceEvaluation { score_milli: 299, reasons: vec![] };
    assert!(user_summary_record(&profile(), 9, low, personalized(299), "m".to_string()).is_none());
    let ok = RelevanceEvaluation { score_milli: 300, reasons: vec!["topic".to_string()] };
    let row = user_summary_record(&profile(), 9, ok, personalized(300), "m".to_string()).unwrap();
    assert!(row.is_relevant);
    assert_eq!(row.language, "fr");
    assert_eq!(row.complexity_level, "simple");
    assert_eq!(row.personalized_headline, "G");
    assert_eq!(row.summary_length, SummaryLength::Medium);
}

#[test]
fn summary_length_follows_relevance() {
    assert_eq!(target_length(900), (5, SummaryLength::Long));
    assert_eq!(target_length(800), (3, SummaryLength::Medium));
    assert_eq!(target_length(501), (3, SummaryLength::Medium));
    assert_eq!(target_length(500), (2, SummaryLength::Short));
    assert_eq!(relevance_or_default(None).score_milli, 500);
    let e = RelevanceEvaluation { score_milli: 4000, reasons: vec![] };
    assert_eq!(relevance_or_default(Some(e)).score_milli, 1000);
    assert_eq!(SummaryLength::Long.as_str(), "long");
}

#[test]
fn job_lifecycle() {
    let mut job = ProcessingJob::new(1, "article_summary".to_string(), 42, "m".to_string(), 0);
    assert!(job.complete(5, 1, 1, 1).is_err());
    assert!(job.start(10).is_ok());
    assert_eq!(job.status, JobStatus::Running);
    assert!(job.fail(20, "timeout".to_string()).is_ok());
    assert_eq!(job.status.as_str(), "failed");
    assert!(job.start(30).is_err());
    assert!(next_status(JobStatus::Completed, JobEvent::Start).is_err());
    assert!(JobStatus::Failed.is_final());
}

#[test]
fn unread_digest_leaves_out_seen_articles() {
    let mut c = Catalog::new();
    for k in 1..=10 {
        c.upsert_article(&format!("http://a/{}", k));
    }
    c.record_view(5, 4);
    c.record_view(6, 7);
    let ids: Vec<usize> = (1..=10).collect();
    let words = vec![100u64; 10];
    let picked = c.unread_digest(5, &ids, &words, 3000, 15);
    assert_eq!(picked.len(), 9);
    assert!(picked.iter().all(|&p| ids[p] != 4));
}

#[test]
fn interest_tokens_are_joined() {
    assert_eq!(interests_text(&vec![]), None);
    let t = interests_text(&vec!["ai".to_string(), "climate".to_string(), "rust".to_string()]);
    assert_eq!(t.as_deref(), Some("ai, climate, rust"));
}

#[test]
fn fallback_rating_carries_a_reason() {
    let r = relevance_or_default(None);
    assert_eq!(r.score_milli, 500);
    assert_eq!(r.reasons, vec!["Unable to evaluate".to_string()]);
}

#[test]
fn stored_record_keeps_reasons_and_usage() {
    let ok = RelevanceEvaluation { score_milli: 700, reasons: vec!["topic".to_string()] };
    let usage = UsageMetadata { prompt_tokens: 3, completion_tokens: 4, total_tokens: 7 };
    let generic = Summary { headline: "G".to_string(), bullets: vec![], details: None, usage: UsageMetadata::zero() };
    let p = personalized_or_generic(None, generic, 700, usage);
    let row = user_summary_record(&profile(), 2, ok, p, "m".to_string()).unwrap();
    assert_eq!(row.relevance_reasons, vec!["topic".to_string()]);
    assert_eq!(row.usage.total_tokens, 7);
}

#[test]
fn ratings_go_on_existing_views() {
    let mut c = Catalog::new();
    c.upsert_article("http://a/1");
    assert!(!c.record_rating(1, 1, 4));
    c.record_view(1, 1);
    assert!(c.record_rating(1, 1, 4));
    assert_eq!(c.view_ratings, vec![Some(4)]);
}

#[test]
fn candidates_come_from_subscribed_feeds_and_unviewed() {
    let mut c = Catalog::new();
    let a = c.subscribe(1, "http://feed-a.example/rss");
    let b = c.subscribe(2, "http://feed-b.example/rss");
    let new_a = c.store_feed_items(a.feed_id, &vec!["http://article-a.example/1".to_string(), "http://article-a.example/2".to_string()]);
    let new_b = c.store_feed_items(b.feed_id, &vec!["http://article-b.example/1".to_string()]);
    assert_eq!(new_a, vec![1, 2]);
    assert_eq!(new_b, vec![3]);
    c.record_view(1, 2);
    assert_eq!(c.candidates_for(1, &vec![1, 2, 3]), vec![1]);
    assert_eq!(c.candidates_for(2, &vec![1, 2, 3]), vec![3]);
}

#[test]
fn summarize_failure_fails_the_job() {
    let bad: Result<Summary, newscope::llm::LlmError> = Err(newscope::llm::LlmError::Http { status: 500 });
    assert_eq!(newscope::summarizer::summary_job_event(&bad), JobEvent::Fail);
    let good = Ok(Summary {
        headline: "H".to_string(),
        bullets: vec!["a".to_string(), "b".to_string(), "c".to_string()],
        details: None,
        usage: UsageMetadata::zero(),
    });
    assert_eq!(newscope::summarizer::summary_job_event(&good), JobEvent::Complete);
    let s = newscope::summarizer::summarize_article(bad, "First. Second.");
    assert_eq!(s.headline, "First");
}

#[test]
fn personalize_prompt_names_language_and_points() {
    let p = newscope::personalize::personalize_prompt(&profile(), "H", &vec!["a".to_string(), "b".to_string()], 900);
    assert!(p.starts_with("Adapt this article summary for a fr speaker with simple complexity level."));
    assert!(p.contains("Key points: a\n- b"));
    assert!(p.contains("Target length: 5 key points"));
}
