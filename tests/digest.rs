use newscope::digest::{
    recent_per_feed, PER_FEED_CANDIDATES, assemble_digest, estimated_cards, exclude_viewed, fit_to_budget, half_life_seconds, target_words,
};

#[test]
fn reading_budget_is_half_the_session() {
    assert_eq!(target_words(1200, 200), 2000);
    assert_eq!(target_words(60, 100), 100);
    assert_eq!(target_words(7200, 300), 3000);
    assert_eq!(target_words(600, 250), 1250);
    assert_eq!(estimated_cards(100), 3);
    assert_eq!(estimated_cards(1250), 9);
    assert_eq!(estimated_cards(3000), 15);
}

#[test]
fn half_life_follows_publication_rate() {
    assert_eq!(half_life_seconds(&vec![]), 864_000);
    assert_eq!(half_life_seconds(&vec![5_000]), 864_000);
    // one article per hour: ten hours
    assert_eq!(half_life_seconds(&vec![10_800, 7_200, 3_600, 0]), 36_000);
    assert_eq!(half_life_seconds(&vec![100, 0]), 3_600);
    assert_eq!(half_life_seconds(&vec![10_000, 5_000, 1_000, 0]), 33_333);
    assert_eq!(half_life_seconds(&vec![100_000_000, 0]), 31_536_000);
}

#[test]
fn digest_excludes_viewed() {
    let ids: Vec<u64> = (1..=10).collect();
    let words: Vec<u64> = vec![150; 10];
    let viewed: Vec<u64> = vec![4];
    let picked = assemble_digest(&ids, &words, &viewed, 3000, 15);
    assert!(picked.len() <= 9);
    assert!(picked.iter().all(|&p| ids[p] != 4));
    assert_eq!(picked.len(), 9);
    assert_eq!(exclude_viewed(&ids, &viewed).len(), 9);
}

#[test]
fn budget_admits_one_overshoot() {
    // target 500: three cards of 150 make 450; a fourth of 240 makes 690, within 200 past it
    let words: Vec<u64> = vec![150, 150, 150, 240, 100];
    assert_eq!(fit_to_budget(&words, 500, 15), vec![0, 1, 2, 3]);
    // a fourth of 300 would pass 700; it is skipped and the next one taken
    let words: Vec<u64> = vec![150, 150, 150, 300, 100];
    assert_eq!(fit_to_budget(&words, 500, 15), vec![0, 1, 2, 4]);
}

#[test]
fn at_least_three_cards_even_over_budget() {
    let words: Vec<u64> = vec![1000, 1000, 1000, 10];
    assert_eq!(fit_to_budget(&words, 100, 15), vec![0, 1, 2]);
    let total: u64 = [1000u64, 1000, 1000].iter().sum();
    assert!(total > 300);
}

#[test]
fn cap_limits_cards() {
    let words: Vec<u64> = vec![10; 20];
    assert_eq!(fit_to_budget(&words, 3000, 5).len(), 5);
}

#[test]
fn most_recent_per_feed() {
    let feeds: Vec<u64> = vec![1, 1, 1, 2];
    let seen: Vec<i64> = vec![10, 30, 20, 5];
    assert_eq!(recent_per_feed(&feeds, &seen, 2), vec![1, 2, 3]);
    let many: Vec<u64> = vec![7; 40];
    let times: Vec<i64> = (0..40).collect();
    let kept = recent_per_feed(&many, &times, PER_FEED_CANDIDATES);
    assert_eq!(kept, (10..40).collect::<Vec<usize>>());
}
