//! The adaptive polling schedule of feeds: which feeds are due, and how a
//! poll's outcome moves a feed's interval and its next poll time.
use vstd::prelude::*;

verus! {

/// The shortest polling interval, in minutes.
pub const MIN_INTERVAL_MINUTES: u32 = 15;

/// The longest polling interval, in minutes (one day).
pub const MAX_INTERVAL_MINUTES: u32 = 1440;

/// What one poll of a feed came to.
#[derive(Debug, Clone, Copy, PartialEq, Eq, Structural)]
pub enum PollOutcome {
    /// The feed was read and held at least one article not seen before.
    NewItems,
    /// The feed was read and held nothing new.
    NoNewItems,
    /// The feed could not be fetched or read.
    Failed,
}

pub open spec fn min(a: int, b: int) -> int {
    if a <= b {
        a
    } else {
        b
    }
}

pub open spec fn max(a: int, b: int) -> int {
    if a >= b {
        a
    } else {
        b
    }
}

/// The interval after a poll: halved (not under 15) after new items, grown
/// by half (not over 1440) after none, both only when the feed is adaptive;
/// doubled (not over 1440) after a failure.
pub open spec fn next_interval_spec(prev: int, outcome: PollOutcome, adaptive: bool) -> int {
    match outcome {
        PollOutcome::Failed => min(prev * 2, MAX_INTERVAL_MINUTES as int),
        PollOutcome::NewItems => if adaptive {
            max(prev / 2, MIN_INTERVAL_MINUTES as int)
        } else {
            prev
        },
        PollOutcome::NoNewItems => if adaptive {
            min(prev + prev / 2, MAX_INTERVAL_MINUTES as int)
        } else {
            prev
        },
    }
}

/// The interval, in minutes, that a feed polled every `prev` minutes gets
/// after a poll with the given outcome.
pub fn next_interval(prev: u32, outcome: PollOutcome, adaptive: bool) -> (r: u32)
    ensures
        r == next_interval_spec(prev as int, outcome, adaptive),
{
    let p = prev as u64;
    match outcome {
        PollOutcome::Failed => {
            if p * 2 < MAX_INTERVAL_MINUTES as u64 {
                (p * 2) as u32
            } else {
                MAX_INTERVAL_MINUTES
            }
        },
        PollOutcome::NewItems => {
            if !adaptive {
                prev
            } else if prev / 2 > MIN_INTERVAL_MINUTES {
                prev / 2
            } else {
                MIN_INTERVAL_MINUTES
            }
        },
        PollOutcome::NoNewItems => {
            if !adaptive {
                prev
            } else if p + p / 2 < MAX_INTERVAL_MINUTES as u64 {
                (p + p / 2) as u32
            } else {
                MAX_INTERVAL_MINUTES
            }
        },
    }
}

/// A feed's polling state. Times are seconds since the Unix epoch.
#[derive(Debug, Clone, Copy, PartialEq, Eq, Structural)]
pub struct FeedSchedule {
    pub poll_interval_minutes: u32,
    pub adaptive_scheduling: bool,
    /// `None` means that the feed is due at once.
    pub next_poll_at: Option<i64>,
    /// When the feed was last read successfully.
    pub last_checked: Option<i64>,
}

/// The latest time that this library schedules from, so that a poll time a
/// day later still fits in an `i64`.
pub const MAX_TIME: i64 = 9_000_000_000_000_000_000;

impl FeedSchedule {
    /// The interval lies within the bounds that every feed keeps.
    pub open spec fn wf(&self) -> bool {
        MIN_INTERVAL_MINUTES <= self.poll_interval_minutes <= MAX_INTERVAL_MINUTES
    }

    /// A feed never polled, with the given interval, due at once.
    pub fn new(poll_interval_minutes: u32, adaptive_scheduling: bool) -> (r: FeedSchedule)
        requires
            MIN_INTERVAL_MINUTES <= poll_interval_minutes <= MAX_INTERVAL_MINUTES,
        ensures
            r.wf(),
            r.poll_interval_minutes == poll_interval_minutes,
            r.adaptive_scheduling == adaptive_scheduling,
            r.next_poll_at is None,
            r.last_checked is None,
    {
        FeedSchedule { poll_interval_minutes, adaptive_scheduling, next_poll_at: None, last_checked: None }
    }

    pub open spec fn due_spec(&self, now: i64) -> bool {
        match self.next_poll_at {
            None => true,
            Some(t) => t <= now,
        }
    }

    /// Whether the feed is to be polled at time `now`.
    pub fn is_due(&self, now: i64) -> (r: bool)
        ensures
            r == self.due_spec(now),
    {
        match self.next_poll_at {
            None => true,
            Some(t) => t <= now,
        }
    }

    /// Records a poll made at time `now`: the interval moves by the outcome,
    /// the next poll comes one interval after `now`, and a successful read
    /// is noted as the last check.
    pub fn record_poll(&mut self, now: i64, outcome: PollOutcome)
        requires
            old(self).wf(),
            now <= MAX_TIME,
        ensures
            final(self).wf(),
            final(self).adaptive_scheduling == old(self).adaptive_scheduling,
            final(self).poll_interval_minutes == next_interval_spec(
                old(self).poll_interval_minutes as int,
                outcome,
                old(self).adaptive_scheduling,
            ),
            final(self).next_poll_at == Some(
                (now + 60 * final(self).poll_interval_minutes) as i64,
            ),
            outcome != PollOutcome::Failed ==> final(self).last_checked == Some(now),
            outcome == PollOutcome::Failed ==> final(self).last_checked == old(self).last_checked,
    {
        let interval = next_interval(self.poll_interval_minutes, outcome, self.adaptive_scheduling);
        proof {
            lemma_interval_bounds(self.poll_interval_minutes as int, outcome, self.adaptive_scheduling);
        }
        self.poll_interval_minutes = interval;
        self.next_poll_at = Some(now + 60 * (interval as i64));
        if outcome != PollOutcome::Failed {
            self.last_checked = Some(now);
        }
    }
}

/// The positions of the feeds that are due at time `now`, in order.
pub fn due_feeds(feeds: &Vec<FeedSchedule>, now: i64) -> (r: Vec<usize>)
    ensures
        forall|k: int| 0 <= k < r@.len() ==> (r@[k] as int) < feeds@.len() && feeds@[r@[k] as int].due_spec(now),
        forall|k: int, l: int| 0 <= k < l < r@.len() ==> r@[k] < r@[l],
        forall|i: int| 0 <= i < feeds@.len() && #[trigger] feeds@[i].due_spec(now) ==> r@.contains(i as usize),
{
    let mut r: Vec<usize> = Vec::new();
    let mut i: usize = 0;
    while i < feeds.len()
        invariant
            i <= feeds@.len(),
            forall|k: int| 0 <= k < r@.len() ==> (r@[k] as int) < i && feeds@[r@[k] as int].due_spec(now),
            forall|k: int, l: int| 0 <= k < l < r@.len() ==> r@[k] < r@[l],
            forall|j: int| 0 <= j < i && #[trigger] feeds@[j].due_spec(now) ==> r@.contains(j as usize),
        decreases feeds.len() - i,
    {
        if feeds[i].is_due(now) {
            let ghost prev = r@;
            r.push(i);
            proof {
                assert(r@[r@.len() - 1] == i);
                assert forall|j: int| 0 <= j < i + 1 && #[trigger] feeds@[j].due_spec(now) implies r@.contains(j as usize) by {
                    if j < i {
                        let w = choose|w: int| 0 <= w < prev.len() && prev[w] == j as usize;
                        assert(r@[w] == j as usize);
                    }
                }
            }
        }
        i = i + 1;
    }
    r
}

/// Every interval that a poll leaves lies within the feed bounds: at least
/// 15 minutes and at most a day; after a failure it is the previous one
/// doubled, capped at a day.
pub proof fn lemma_interval_bounds(prev: int, outcome: PollOutcome, adaptive: bool)
    requires
        MIN_INTERVAL_MINUTES <= prev <= MAX_INTERVAL_MINUTES,
    ensures
        MIN_INTERVAL_MINUTES <= next_interval_spec(prev, outcome, adaptive) <= MAX_INTERVAL_MINUTES,
        outcome == PollOutcome::Failed ==> next_interval_spec(prev, outcome, adaptive) == min(prev * 2, 1440),
{
}

/// After a poll of a well-formed feed at `now`, its next poll time lies
/// between fifteen minutes and one day after `now`.
pub proof fn lemma_next_poll_window(s: FeedSchedule, now: i64, outcome: PollOutcome)
    requires
        s.wf(),
        now <= MAX_TIME,
    ensures
        now + 60 * 15 <= now + 60 * next_interval_spec(s.poll_interval_minutes as int, outcome, s.adaptive_scheduling),
        now + 60 * next_interval_spec(s.poll_interval_minutes as int, outcome, s.adaptive_scheduling) <= now + 60 * 1440,
{
    lemma_interval_bounds(s.poll_interval_minutes as int, outcome, s.adaptive_scheduling);
}

} // verus!
