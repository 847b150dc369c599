use newscope::processing::{
    batch_chunks, embedding_input, known_categories, needs_scrape, parse_categories,
    prepare_article_text, ProcessingError, BATCH_SIZE,
};

#[test]
fn processing_test_batch_chunking() {
    let ids: Vec<i64> = vec![1, 2, 3, 4, 5, 6, 7, 8, 9, 10, 11, 12];
    let chunks = batch_chunks(&ids, BATCH_SIZE);
    assert_eq!(chunks.len(), 3);
    assert_eq!(chunks[0].len(), 5);
    assert_eq!(chunks[1].len(), 5);
    assert_eq!(chunks[2].len(), 2);
}

#[test]
fn test_batch_chunking() {
    let ids: Vec<i64> = vec![1, 2, 3, 4, 5, 6, 7, 8, 9, 10, 11, 12];
    let chunks = batch_chunks(&ids, 5);
    assert_eq!(chunks.len(), 3);
    assert_eq!(chunks[0].len(), 5);
    assert_eq!(chunks[1].len(), 5);
    assert_eq!(chunks[2].len(), 2);
}

#[test]
fn batch_chunks_keeps_order_and_handles_empty() {
    let ids: Vec<i64> = vec![7, 8, 9];
    assert_eq!(batch_chunks(&ids, 2), vec![vec![7, 8], vec![9]]);
    assert!(batch_chunks(&Vec::new(), 5).is_empty());
}

#[test]
fn categories_are_filtered_to_the_closed_set() {
    let cats = parse_categories(" Technology, SPORTS ,cooking, health, science");
    assert_eq!(cats, vec!["technology", "sports", "health"]);
    assert!(parse_categories("none of these").is_empty());
}

#[test]
fn known_categories_takes_lowercased_labels() {
    let labels = vec!["economy".to_string(), "Economy".to_string(), "local_news".to_string()];
    assert_eq!(known_categories(labels), vec!["economy", "local_news"]);
}

#[test]
fn embedding_input_uses_summary_or_content() {
    let bullets = vec!["one".to_string(), "two".to_string()];
    assert_eq!(embedding_input("T", Some("H"), &bullets, "ignored"), "T\nH one two");
    let content = "c".repeat(600);
    let r = embedding_input("T", None, &Vec::new(), &content);
    assert_eq!(r, format!("T\n{}", "c".repeat(500)));
}

#[test]
fn short_content_is_scraped_then_skipped_when_still_short() {
    assert!(needs_scrape("short"));
    assert!(!needs_scrape(&"x".repeat(100)));
    assert_eq!(prepare_article_text("short", Some("tiny")), Ok(None));
}

#[test]
fn html_is_rendered_as_text() {
    let html = "<html><body><p>Rust is a systems programming language focused on safety and speed.</p></body></html>";
    let out = prepare_article_text(html, None).unwrap().unwrap();
    assert!(out.contains("Rust is a systems programming language"));
    assert!(!out.contains("<p>"));
    let _ = ProcessingError::Render;
}

#[test]
fn degraded_scrape_keeps_feed_content() {
    let content = "<p>Feed content that is a little longer than the scrape.</p>";
    let out = prepare_article_text(content, Some("short")).unwrap().unwrap();
    assert!(out.contains("Feed content"));
}

#[test]
fn classification_and_relevance_prompts() {
    let bullets = vec!["a".to_string(), "b".to_string()];
    let p = newscope::processing::classify_prompt("H", &bullets);
    assert!(p.starts_with("Classify this article into categories (max 3): H\n\nKey points: a, b\n\n"));
    let r = newscope::processing::relevance_prompt("H", &bullets, &vec![]);
    assert!(r.starts_with("Evaluate if this article is relevant for a user interested in: general news\n"));
}
