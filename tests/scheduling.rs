use newscope::fetch::{backoff_seconds, next_step, Attempt, FetchError, FetchStep, MAX_ATTEMPTS};
use newscope::scheduler::{due_feeds, next_interval, FeedSchedule, PollOutcome};

#[test]
fn failure_doubles_the_interval() {
    let now: i64 = 1_700_000_000;
    let mut feed = FeedSchedule::new(60, true);
    feed.record_poll(now, PollOutcome::Failed);
    assert_eq!(feed.poll_interval_minutes, 120);
    assert_eq!(feed.next_poll_at, Some(now + 120 * 60));
}

#[test]
fn new_items_halve_the_interval() {
    let now: i64 = 1_700_000_000;
    let mut feed = FeedSchedule::new(60, true);
    feed.record_poll(now, PollOutcome::NewItems);
    assert_eq!(feed.poll_interval_minutes, 30);
    assert_eq!(feed.next_poll_at, Some(now + 30 * 60));
}

#[test]
fn interval_transitions_respect_bounds() {
    assert_eq!(next_interval(20, PollOutcome::NewItems, true), 15);
    assert_eq!(next_interval(60, PollOutcome::NoNewItems, true), 90);
    assert_eq!(next_interval(1200, PollOutcome::NoNewItems, true), 1440);
    assert_eq!(next_interval(1000, PollOutcome::Failed, true), 1440);
    assert_eq!(next_interval(1000, PollOutcome::Failed, false), 1440);
    assert_eq!(next_interval(60, PollOutcome::NewItems, false), 60);
    assert_eq!(next_interval(60, PollOutcome::NoNewItems, false), 60);
}

#[test]
fn next_poll_lies_within_a_day() {
    let now: i64 = 1_000;
    for start in [15u32, 16, 60, 1000, 1440] {
        for outcome in [PollOutcome::NewItems, PollOutcome::NoNewItems, PollOutcome::Failed] {
            let mut feed = FeedSchedule::new(start, true);
            feed.record_poll(now, outcome);
            let next = feed.next_poll_at.unwrap();
            assert!(next >= now + 15 * 60 && next <= now + 1440 * 60);
        }
    }
}

#[test]
fn due_feeds_include_never_polled() {
    let a = FeedSchedule::new(60, true);
    let mut b = FeedSchedule::new(60, true);
    b.record_poll(3000, PollOutcome::NewItems);
    let mut c = FeedSchedule::new(60, false);
    c.record_poll(0, PollOutcome::NewItems);
    assert_eq!(due_feeds(&vec![a, b, c], 3600), vec![0, 2]);
}

#[test]
fn three_server_errors_end_in_http_error() {
    let e = Attempt::Status { code: 503 };
    assert_eq!(next_step(1, e), FetchStep::RetryAfter { seconds: 1 });
    assert_eq!(next_step(2, e), FetchStep::RetryAfter { seconds: 2 });
    assert_eq!(next_step(MAX_ATTEMPTS, e), FetchStep::Fail { error: FetchError::Http { status: 503 } });
}

#[test]
fn client_errors_are_terminal_and_others_retried() {
    assert_eq!(next_step(1, Attempt::Status { code: 404 }), FetchStep::Fail { error: FetchError::Http { status: 404 } });
    assert_eq!(next_step(1, Attempt::Status { code: 429 }), FetchStep::RetryAfter { seconds: 1 });
    assert_eq!(next_step(1, Attempt::Status { code: 200 }), FetchStep::ReadBody);
    assert_eq!(next_step(2, Attempt::Network), FetchStep::RetryAfter { seconds: 2 });
    assert_eq!(next_step(3, Attempt::TimedOut), FetchStep::Fail { error: FetchError::Timeout });
    assert_eq!(next_step(3, Attempt::Network), FetchStep::Fail { error: FetchError::Network });
    assert_eq!(backoff_seconds(3), 4);
}

#[test]
fn successful_poll_sets_last_checked() {
    let mut feed = FeedSchedule::new(60, true);
    feed.record_poll(500, PollOutcome::NoNewItems);
    assert_eq!(feed.last_checked, Some(500));
    feed.record_poll(900, PollOutcome::Failed);
    assert_eq!(feed.last_checked, Some(500));
}
