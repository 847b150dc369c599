//! The digest assembler's integer parts: the reading budget, the per-feed
//! half-life, the exclusion of articles already seen, and the fitting of a
//! ranked list of articles to the budget.
use vstd::prelude::*;

verus! {

/// The smallest reading budget, in words.
pub const MIN_TARGET_WORDS: u64 = 100;

/// The largest reading budget, in words.
pub const MAX_TARGET_WORDS: u64 = 3000;

/// How far past the budget the selection may run, in words.
pub const OVERSHOOT_WORDS: u64 = 200;

/// The fewest cards that a digest holds when there are enough articles.
pub const MIN_CARDS: usize = 3;

/// The most cards that a digest holds.
pub const MAX_CARDS: u64 = 15;

/// One hour, the shortest half-life, in seconds.
pub const MIN_HALF_LIFE_SECS: i64 = 3600;

/// One year, the longest half-life, in seconds.
pub const MAX_HALF_LIFE_SECS: i64 = 31_536_000;

/// Ten days, the half-life of a feed without history, in seconds.
pub const DEFAULT_HALF_LIFE_SECS: i64 = 864_000;

pub open spec fn clamp(x: int, lo: int, hi: int) -> int {
    if x < lo {
        lo
    } else if x > hi {
        hi
    } else {
        x
    }
}

/// Half of a session of `duration_secs` seconds, read at `wpm` words per
/// minute, kept within 100 and 3,000 words.
pub open spec fn target_words_spec(duration_secs: int, wpm: int) -> int {
    clamp((duration_secs * wpm) / 120, MIN_TARGET_WORDS as int, MAX_TARGET_WORDS as int)
}

/// The reading budget in words of a session: half its duration read at the
/// user's speed, kept within 100 and 3,000.
pub fn target_words(duration_secs: u64, wpm: u64) -> (r: u64)
    ensures
        r == target_words_spec(duration_secs as int, wpm as int),
{
    assert((duration_secs as int) * (wpm as int) <= 0xffff_ffff_ffff_ffff * 0xffff_ffff_ffff_ffff) by (nonlinear_arith)
        requires
            duration_secs <= 0xffff_ffff_ffff_ffffu64,
            wpm <= 0xffff_ffff_ffff_ffffu64,
    ;
    let words: u128 = (duration_secs as u128) * (wpm as u128) / 120;
    if words < MIN_TARGET_WORDS as u128 {
        MIN_TARGET_WORDS
    } else if words > MAX_TARGET_WORDS as u128 {
        MAX_TARGET_WORDS
    } else {
        words as u64
    }
}

/// The number of cards to aim for: one per 150 words, rounded up, kept
/// within 3 and 15.
pub open spec fn estimated_cards_spec(target: int) -> int {
    clamp((target + 149) / 150, MIN_CARDS as int, MAX_CARDS as int)
}

pub fn estimated_cards(target_words: u64) -> (r: u64)
    ensures
        r == estimated_cards_spec(target_words as int),
{
    let n: u128 = ((target_words as u128) + 149) / 150;
    if n < MIN_CARDS as u128 {
        MIN_CARDS as u64
    } else if n > MAX_CARDS as u128 {
        MAX_CARDS
    } else {
        n as u64
    }
}

/// The half-life of a feed's articles from the times its latest articles
/// were first seen, newest first: ten times the mean gap between them (the span
/// over the number of gaps), kept
/// within an hour and a year; ten days without two observations.
pub open spec fn half_life_spec(seen: Seq<i64>) -> int {
    if seen.len() < 2 {
        DEFAULT_HALF_LIFE_SECS as int
    } else {
        let span = seen[0] - seen[seen.len() - 1];
        if span <= 0 {
            MIN_HALF_LIFE_SECS as int
        } else {
            clamp(
                (10 * span) / (seen.len() - 1),
                MIN_HALF_LIFE_SECS as int,
                MAX_HALF_LIFE_SECS as int,
            )
        }
    }
}

/// The half-life, in seconds, of a feed whose latest articles were first
/// seen at the given times, newest first.
pub fn half_life_seconds(seen: &Vec<i64>) -> (r: i64)
    ensures
        r == half_life_spec(seen@),
        MIN_HALF_LIFE_SECS <= r <= MAX_HALF_LIFE_SECS,
{
    let n = seen.len();
    if n < 2 {
        return DEFAULT_HALF_LIFE_SECS;
    }
    let span: i128 = (seen[0] as i128) - (seen[n - 1] as i128);
    if span <= 0 {
        return MIN_HALF_LIFE_SECS;
    }
    let h: i128 = (10 * span) / ((n - 1) as i128);
    assert(h <= 10 * span) by (nonlinear_arith)
        requires
            span > 0,
            n >= 2,
            h as int == (10 * span as int) / ((n - 1) as int),
    ;
    if h < MIN_HALF_LIFE_SECS as i128 {
        MIN_HALF_LIFE_SECS
    } else if h > MAX_HALF_LIFE_SECS as i128 {
        MAX_HALF_LIFE_SECS
    } else {
        h as i64
    }
}

/// The positions of the articles whose ids `viewed` does not hold, in order.
pub open spec fn unviewed_positions(ids: Seq<u64>, viewed: Seq<u64>) -> Seq<int>
    decreases ids.len(),
{
    if ids.len() == 0 {
        Seq::empty()
    } else {
        let r = unviewed_positions(ids.drop_last(), viewed);
        if viewed.contains(ids.last()) {
            r
        } else {
            r.push(ids.len() - 1)
        }
    }
}

/// The cards picked from articles of the given word counts, read in rank
/// order from position `i` on, with `count` cards of `words` words so far:
/// an article is taken while fewer than three are taken, and after that
/// while the budget is not met and the article keeps the total within 200
/// words past the budget; nothing is taken after `cap` cards.
pub open spec fn pick(w: Seq<u64>, target: int, cap: int, i: int, count: int, words: int) -> Seq<int>
    decreases w.len() - i,
{
    if i < 0 || i >= w.len() || count >= cap || (count >= MIN_CARDS && words >= target) {
        Seq::empty()
    } else if count >= MIN_CARDS && words + w[i] > target + OVERSHOOT_WORDS {
        pick(w, target, cap, i + 1, count, words)
    } else {
        seq![i].add(pick(w, target, cap, i + 1, count + 1, words + w[i]))
    }
}

/// The total word count of the articles at the given positions.
pub open spec fn sum_words(w: Seq<u64>, idx: Seq<int>) -> int
    decreases idx.len(),
{
    if idx.len() == 0 {
        0
    } else {
        w[idx[0]] + sum_words(w, idx.drop_first())
    }
}

/// The digest: the unviewed articles, fitted to the budget.
pub open spec fn digest_spec(
    ids: Seq<u64>,
    w: Seq<u64>,
    viewed: Seq<u64>,
    target: int,
    cap: int,
) -> Seq<int> {
    let pos = unviewed_positions(ids, viewed);
    let ws = Seq::new(pos.len(), |k: int| w[pos[k]]);
    let chosen = pick(ws, target, cap, 0, 0, 0);
    Seq::new(chosen.len(), |k: int| pos[chosen[k]])
}

proof fn lemma_unviewed_positions_bounds(ids: Seq<u64>, viewed: Seq<u64>)
    ensures
        forall|k: int|
            0 <= k < unviewed_positions(ids, viewed).len() ==> {
                let p = #[trigger] unviewed_positions(ids, viewed)[k];
                0 <= p < ids.len() && !viewed.contains(ids[p])
            },
    decreases ids.len(),
{
    if ids.len() > 0 {
        let init = ids.drop_last();
        lemma_unviewed_positions_bounds(init, viewed);
        let r = unviewed_positions(init, viewed);
        assert forall|k: int| 0 <= k < unviewed_positions(ids, viewed).len() implies {
            let p = #[trigger] unviewed_positions(ids, viewed)[k];
            0 <= p < ids.len() && !viewed.contains(ids[p])
        } by {
            if k < r.len() {
                assert(unviewed_positions(ids, viewed)[k] == r[k]);
                assert(init[r[k]] == ids[r[k]]);
            }
        }
    }
}

proof fn lemma_pick_bounds(w: Seq<u64>, target: int, cap: int, i: int, count: int, words: int)
    ensures
        forall|k: int| 0 <= k < pick(w, target, cap, i, count, words).len() ==> i <= #[trigger] pick(w, target, cap, i, count, words)[k] < w.len(),
        count + pick(w, target, cap, i, count, words).len() <= if count > cap { count } else { cap },
    decreases w.len() - i,
{
    if i < 0 || i >= w.len() || count >= cap || (count >= MIN_CARDS && words >= target) {
    } else if count >= MIN_CARDS && words + w[i] > target + OVERSHOOT_WORDS {
        lemma_pick_bounds(w, target, cap, i + 1, count, words);
    } else {
        lemma_pick_bounds(w, target, cap, i + 1, count + 1, words + w[i]);
        let rest = pick(w, target, cap, i + 1, count + 1, words + w[i]);
        assert forall|k: int| 0 <= k < pick(w, target, cap, i, count, words).len() implies i <= #[trigger] pick(w, target, cap, i, count, words)[k] < w.len() by {
            if k > 0 {
                assert(pick(w, target, cap, i, count, words)[k] == rest[k - 1]);
            }
        }
    }
}

/// The positions of `ids` whose id `viewed` does not hold, in order.
pub fn exclude_viewed(ids: &Vec<u64>, viewed: &Vec<u64>) -> (r: Vec<usize>)
    ensures
        r@.len() == unviewed_positions(ids@, viewed@).len(),
        forall|k: int| 0 <= k < r@.len() ==> r@[k] as int == unviewed_positions(ids@, viewed@)[k],
        forall|k: int| 0 <= k < r@.len() ==> (r@[k] as int) < ids@.len() && !viewed@.contains(ids@[r@[k] as int]),
{
    let mut r: Vec<usize> = Vec::new();
    let mut i: usize = 0;
    while i < ids.len()
        invariant
            i <= ids@.len(),
            r@.len() == unviewed_positions(ids@.take(i as int), viewed@).len(),
            forall|k: int| 0 <= k < r@.len() ==> r@[k] as int == unviewed_positions(ids@.take(i as int), viewed@)[k],
        decreases ids.len() - i,
    {
        proof {
            assert(ids@.take(i + 1).drop_last() =~= ids@.take(i as int));
            assert(ids@.take(i + 1).last() == ids@[i as int]);
        }
        let mut seen = false;
        let mut j: usize = 0;
        while j < viewed.len()
            invariant
                j <= viewed@.len(),
                i < ids@.len(),
                seen == (exists|m: int| 0 <= m < j && viewed@[m] == ids@[i as int]),
            decreases viewed.len() - j,
        {
            if viewed[j] == ids[i] {
                seen = true;
            }
            j = j + 1;
        }
        if !seen {
            r.push(i);
        }
        i = i + 1;
    }
    assert(ids@.take(ids@.len() as int) =~= ids@);
    proof {
        lemma_unviewed_positions_bounds(ids@, viewed@);
    }
    r
}

/// Fits a ranked list of articles to a reading budget: returns the positions
/// taken, in rank order.
pub fn fit_to_budget(word_counts: &Vec<u64>, target: u64, cap: usize) -> (r: Vec<usize>)
    ensures
        r@.len() == pick(word_counts@, target as int, cap as int, 0, 0, 0).len(),
        forall|k: int| 0 <= k < r@.len() ==> r@[k] as int == pick(word_counts@, target as int, cap as int, 0, 0, 0)[k],
{
    let ghost w = word_counts@;
    let ghost all = pick(w, target as int, cap as int, 0, 0, 0);
    let mut r: Vec<usize> = Vec::new();
    let mut i: usize = 0;
    let mut count: usize = 0;
    let mut words: u128 = 0;
    proof {
        lemma_pick_bounds(w, target as int, cap as int, 0, 0, 0);
    }
    while i < word_counts.len() && !(count >= cap || (count >= MIN_CARDS && words >= target as u128))
        invariant
            w == word_counts@,
            all == pick(w, target as int, cap as int, 0, 0, 0),
            i <= w.len(),
            count == r@.len(),
            count <= i,
            words <= (u64::MAX as int) * i,
            all =~= Seq::new(r@.len(), |k: int| r@[k] as int).add(pick(w, target as int, cap as int, i as int, count as int, words as int)),
        decreases word_counts.len() - i,
    {
        let wc = word_counts[i];
        if count >= MIN_CARDS && words + (wc as u128) > (target as u128) + (OVERSHOOT_WORDS as u128) {
            i = i + 1;
        } else {
            let ghost before = Seq::new(r@.len(), |k: int| r@[k] as int);
            r.push(i);
            proof {
                assert(Seq::new(r@.len(), |k: int| r@[k] as int) =~= before.push(i as int));
            }
            count = count + 1;
            words = words + (wc as u128);
            i = i + 1;
            assert(words <= (u64::MAX as int) * i) by (nonlinear_arith)
                requires
                    words <= (u64::MAX as int) * (i - 1) + u64::MAX,
            ;
        }
        assert(words <= (u64::MAX as int) * i) by (nonlinear_arith)
            requires
                words <= (u64::MAX as int) * i,
        ;
    }
    assert(pick(w, target as int, cap as int, i as int, count as int, words as int) =~= Seq::<int>::empty());
    r
}

proof fn lemma_budget_step(w: Seq<u64>, target: int, cap: int, i: int, count: int, words: int)
    requires
        0 <= i,
        0 <= count,
        cap >= MIN_CARDS,
        count < MIN_CARDS ==> w.len() - i >= MIN_CARDS - count,
        count >= MIN_CARDS ==> (words <= target + OVERSHOOT_WORDS || (count == MIN_CARDS && words >= target)),
    ensures
        words + sum_words(w, pick(w, target, cap, i, count, words)) <= target + OVERSHOOT_WORDS
            || count + pick(w, target, cap, i, count, words).len() == MIN_CARDS,
    decreases w.len() - i,
{
    if i < 0 || i >= w.len() || count >= cap || (count >= MIN_CARDS && words >= target) {
    } else if count >= MIN_CARDS && words + w[i] > target + OVERSHOOT_WORDS {
        lemma_budget_step(w, target, cap, i + 1, count, words);
    } else {
        let rest = pick(w, target, cap, i + 1, count + 1, words + w[i]);
        lemma_budget_step(w, target, cap, i + 1, count + 1, words + w[i]);
        assert((seq![i].add(rest)).drop_first() =~= rest);
    }
}

/// Budget law: when at least three articles are offered, the cards picked
/// either hold at most 200 words past the budget, or are exactly three.
pub proof fn lemma_digest_budget(w: Seq<u64>, target: int, cap: int)
    requires
        w.len() >= MIN_CARDS,
        cap >= MIN_CARDS,
    ensures
        sum_words(w, pick(w, target, cap, 0, 0, 0)) <= target + OVERSHOOT_WORDS
            || pick(w, target, cap, 0, 0, 0).len() == MIN_CARDS,
{
    lemma_budget_step(w, target, cap, 0, 0, 0);
}

/// Assembles a digest: leaves out the articles that `viewed` holds, then
/// fits the rest, in rank order, to the budget. Returns positions in `ids`.
pub fn assemble_digest(
    ids: &Vec<u64>,
    word_counts: &Vec<u64>,
    viewed: &Vec<u64>,
    target: u64,
    cap: usize,
) -> (r: Vec<usize>)
    requires
        ids@.len() == word_counts@.len(),
    ensures
        r@.len() == digest_spec(ids@, word_counts@, viewed@, target as int, cap as int).len(),
        forall|k: int| 0 <= k < r@.len() ==> r@[k] as int == digest_spec(ids@, word_counts@, viewed@, target as int, cap as int)[k],
        forall|k: int| 0 <= k < r@.len() ==> (r@[k] as int) < ids@.len() && !viewed@.contains(ids@[r@[k] as int]),
{
    let pos = exclude_viewed(ids, viewed);
    let ghost p = unviewed_positions(ids@, viewed@);
    let mut ws: Vec<u64> = Vec::new();
    let mut k: usize = 0;
    while k < pos.len()
        invariant
            k <= pos@.len(),
            pos@.len() == p.len(),
            ids@.len() == word_counts@.len(),
            forall|m: int| 0 <= m < pos@.len() ==> pos@[m] as int == p[m],
            forall|m: int| 0 <= m < pos@.len() ==> (pos@[m] as int) < ids@.len(),
            ws@ =~= Seq::new(k as nat, |m: int| word_counts@[p[m]]),
        decreases pos.len() - k,
    {
        ws.push(word_counts[pos[k]]);
        k = k + 1;
    }
    assert(ws@.len() == pos@.len());
    let chosen = fit_to_budget(&ws, target, cap);
    let ghost ch = pick(ws@, target as int, cap as int, 0, 0, 0);
    proof {
        lemma_pick_bounds(ws@, target as int, cap as int, 0, 0, 0);
        lemma_unviewed_positions_bounds(ids@, viewed@);
    }
    let mut r: Vec<usize> = Vec::new();
    let mut m: usize = 0;
    while m < chosen.len()
        invariant
            m <= chosen@.len(),
            ch == pick(ws@, target as int, cap as int, 0, 0, 0),
            chosen@.len() == ch.len(),
            forall|q: int| 0 <= q < chosen@.len() ==> chosen@[q] as int == ch[q],
            forall|q: int| 0 <= q < ch.len() ==> 0 <= #[trigger] ch[q] < ws@.len(),
            ws@.len() == pos@.len(),
            forall|q: int| 0 <= q < pos@.len() ==> pos@[q] as int == p[q],
            r@.len() == m,
            forall|q: int| 0 <= q < m ==> r@[q] as int == p[ch[q]],
        decreases chosen.len() - m,
    {
        let c = chosen[m];
        assert(ch[m as int] == c as int);
        assert(0 <= ch[m as int] < ws@.len());
        r.push(pos[c]);
        m = m + 1;
    }
    r
}

/// The most recent candidates kept per feed.
pub const PER_FEED_CANDIDATES: usize = 30;

/// Candidate `j` comes before candidate `i` in `i`'s feed: same feed, and
/// first seen later, or at the same time and listed earlier.
pub open spec fn newer(feeds: Seq<u64>, seen: Seq<i64>, i: int, j: int) -> bool {
    feeds[j] == feeds[i] && (seen[j] > seen[i] || (seen[j] == seen[i] && j < i))
}

/// How many of the first `k` candidates come before candidate `i` in its feed.
pub open spec fn newer_count(feeds: Seq<u64>, seen: Seq<i64>, i: int, k: int) -> int
    decreases k,
{
    if k <= 0 {
        0
    } else {
        newer_count(feeds, seen, i, k - 1) + if newer(feeds, seen, i, k - 1) { 1int } else { 0int }
    }
}

/// The positions, in order, of the candidates among the `limit` most
/// recent of their feed, from the first `k` candidates.
pub open spec fn recent_positions(feeds: Seq<u64>, seen: Seq<i64>, limit: int, k: int) -> Seq<int>
    decreases k,
{
    if k <= 0 {
        Seq::empty()
    } else {
        let r = recent_positions(feeds, seen, limit, k - 1);
        if newer_count(feeds, seen, k - 1, feeds.len() as int) < limit {
            r.push(k - 1)
        } else {
            r
        }
    }
}

/// The candidates among the `limit` most recent of their feed: given the
/// feed and the first-seen time of each candidate, their positions in order.
pub fn recent_per_feed(feeds: &Vec<u64>, seen: &Vec<i64>, limit: usize) -> (r: Vec<usize>)
    requires
        feeds@.len() == seen@.len(),
    ensures
        r@.len() == recent_positions(feeds@, seen@, limit as int, feeds@.len() as int).len(),
        forall|k: int| 0 <= k < r@.len() ==> r@[k] as int == recent_positions(feeds@, seen@, limit as int, feeds@.len() as int)[k],
{
    let n = feeds.len();
    let mut r: Vec<usize> = Vec::new();
    let mut i: usize = 0;
    while i < n
        invariant
            n == feeds@.len(),
            n == seen@.len(),
            i <= n,
            r@.len() == recent_positions(feeds@, seen@, limit as int, i as int).len(),
            forall|k: int| 0 <= k < r@.len() ==> r@[k] as int == recent_positions(feeds@, seen@, limit as int, i as int)[k],
        decreases n - i,
    {
        let mut count: usize = 0;
        let mut j: usize = 0;
        while j < n
            invariant
                n == feeds@.len(),
                n == seen@.len(),
                i < n,
                j <= n,
                count <= j,
                count == newer_count(feeds@, seen@, i as int, j as int),
            decreases n - j,
        {
            if feeds[j] == feeds[i] && (seen[j] > seen[i] || (seen[j] == seen[i] && j < i)) {
                count = count + 1;
            }
            j = j + 1;
        }
        if count < limit {
            r.push(i);
        }
        i = i + 1;
    }
    r
}

} // verus!
