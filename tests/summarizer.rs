use newscope::llm::{LlmError, Summary, UsageMetadata};
use newscope::summarizer::{extractive_summary, summarize_article, truncate};

#[test]
fn test_extractive_summary() {
    let text = "First sentence is the headline. Second sentence is a bullet. \
                Third sentence is another bullet. Fourth is yet another. \
                Fifth sentence here. Sixth and final.";

    let summary = extractive_summary(text);

    assert_eq!(summary.headline, "First sentence is the headline");
    assert_eq!(summary.bullets.len(), 5);
    assert_eq!(summary.bullets[0], "Second sentence is a bullet");
    assert!(summary.details.is_some());
}

#[test]
fn test_extractive_summary_truncation() {
    let long_sentence = "a".repeat(150);
    let text = format!("{}. Second sentence.", long_sentence);

    let summary = extractive_summary(&text);

    assert!(summary.headline.len() <= 103); // 100 + "..."
    assert!(summary.headline.ends_with("..."));
}

#[test]
fn extractive_summary_of_empty_text() {
    let summary = extractive_summary("  ...  ");
    assert_eq!(summary.headline, "No content");
    assert!(summary.bullets.is_empty());
    assert_eq!(summary.details.as_deref(), Some("  ...  "));
}

#[test]
fn extractive_summary_keeps_five_bullets_and_thousand_chars() {
    let mut text = String::new();
    for i in 0..10 {
        text.push_str(&format!("Sentence number {} {}! ", i, "x".repeat(150)));
    }
    let summary = extractive_summary(&text);
    assert_eq!(summary.bullets.len(), 5);
    assert!(summary.headline.starts_with("Sentence number 0"));
    assert!(summary.bullets[0].starts_with("Sentence number 1"));
    assert_eq!(summary.details.unwrap().chars().count(), 1000);
}

#[test]
fn truncate_cuts_with_ellipsis() {
    assert_eq!(truncate("abcdefghij", 10), "abcdefghij");
    assert_eq!(truncate("abcdefghijk", 10), "abcdefg...");
    assert_eq!(truncate("ééééé", 4), "é...");
}

fn llm_summary(bullets: usize) -> Summary {
    Summary {
        headline: "Model headline".to_string(),
        bullets: (0..bullets).map(|i| format!("Point {}", i)).collect(),
        details: None,
        usage: UsageMetadata { prompt_tokens: 10, completion_tokens: 5, total_tokens: 15 },
    }
}

#[test]
fn summarize_article_keeps_well_formed_model_summary() {
    let s = summarize_article(Ok(llm_summary(3)), "Some text. More text.");
    assert_eq!(s.headline, "Model headline");
    assert_eq!(s.bullets.len(), 3);
    assert_eq!(s.usage.total_tokens, 15);
}

#[test]
fn summarize_article_falls_back_on_http_error() {
    let s = summarize_article(Err(LlmError::Http { status: 500 }), "Alpha beta. Gamma delta. Epsilon.");
    assert_eq!(s.headline, "Alpha beta");
    assert_eq!(s.bullets, vec!["Gamma delta".to_string(), "Epsilon".to_string()]);
    assert_eq!(s.details.as_deref(), Some("Alpha beta. Gamma delta. Epsilon."));
    assert_eq!(s.usage.total_tokens, 0);
}

#[test]
fn summarize_article_falls_back_on_malformed_summary() {
    let s = summarize_article(Ok(llm_summary(8)), "Only one sentence here");
    assert_eq!(s.headline, "Only one sentence here");
    assert!(s.bullets.is_empty());
}
