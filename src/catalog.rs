//! The store's uniqueness rules, held by an in-memory catalog: one feed per
//! URL, one article per canonical URL, one subscription per user and feed,
//! one occurrence per article and feed, one view per user and article.
//! Identifiers are positions from 1.
use vstd::prelude::*;
use crate::digest::digest_spec;
use crate::text::{same_text, string_views};

verus! {

/// The outcome of a subscription request.
#[derive(Debug, Clone, Copy, PartialEq, Eq, Structural)]
pub struct Subscribed {
    pub feed_id: usize,
    pub subscription_id: usize,
    /// The user was subscribed to this feed before the request.
    pub already_subscribed: bool,
}

/// Feeds, articles and the relations between them and users.
#[derive(Debug)]
pub struct Catalog {
    pub feeds: Vec<String>,
    pub articles: Vec<String>,
    /// (user, feed) pairs.
    pub subscriptions: Vec<(u64, usize)>,
    /// (article, feed) pairs.
    pub occurrences: Vec<(usize, usize)>,
    /// (user, article) pairs.
    pub views: Vec<(u64, usize)>,
    /// The star rating of each view, when the user gave one.
    pub view_ratings: Vec<Option<u8>>,
}

fn find_text(v: &Vec<String>, s: &str) -> (r: Option<usize>)
    ensures
        match r {
            Some(i) => i < v@.len() && v@[i as int]@ == s@,
            None => forall|i: int| 0 <= i < v@.len() ==> v@[i]@ != s@,
        },
{
    let mut i: usize = 0;
    while i < v.len()
        invariant
            i <= v@.len(),
            forall|j: int| 0 <= j < i ==> v@[j]@ != s@,
        decreases v.len() - i,
    {
        if same_text(v[i].as_str(), s) {
            return Some(i);
        }
        i = i + 1;
    }
    None
}

fn find_user_pair(v: &Vec<(u64, usize)>, a: u64, b: usize) -> (r: Option<usize>)
    ensures
        match r {
            Some(i) => i < v@.len() && v@[i as int] == (a, b),
            None => !v@.contains((a, b)),
        },
{
    let mut i: usize = 0;
    while i < v.len()
        invariant
            i <= v@.len(),
            forall|j: int| 0 <= j < i ==> v@[j] != (a, b),
        decreases v.len() - i,
    {
        let (x, y) = v[i];
        if x == a && y == b {
            return Some(i);
        }
        i = i + 1;
    }
    None
}

fn find_id_pair(v: &Vec<(usize, usize)>, a: usize, b: usize) -> (r: Option<usize>)
    ensures
        match r {
            Some(i) => i < v@.len() && v@[i as int] == (a, b),
            None => !v@.contains((a, b)),
        },
{
    let mut i: usize = 0;
    while i < v.len()
        invariant
            i <= v@.len(),
            forall|j: int| 0 <= j < i ==> v@[j] != (a, b),
        decreases v.len() - i,
    {
        let (x, y) = v[i];
        if x == a && y == b {
            return Some(i);
        }
        i = i + 1;
    }
    None
}

/// The articles that `user` has seen, in the order of the views.
pub open spec fn viewed_articles(views: Seq<(u64, usize)>, user: u64) -> Seq<usize>
    decreases views.len(),
{
    if views.len() == 0 {
        Seq::empty()
    } else {
        let r = viewed_articles(views.drop_last(), user);
        if views.last().0 == user {
            r.push(views.last().1)
        } else {
            r
        }
    }
}

/// The canonical URLs after storing `links` on top of `stored`: each
/// non-empty link not yet present is added, in order.
pub open spec fn stored_after(stored: Seq<Seq<char>>, links: Seq<Seq<char>>) -> Seq<Seq<char>>
    decreases links.len(),
{
    if links.len() == 0 {
        stored
    } else {
        let prev = stored_after(stored, links.drop_last());
        let l = links.last();
        if l.len() > 0 && !prev.contains(l) {
            prev.push(l)
        } else {
            prev
        }
    }
}

/// Occurrence `o` shows article `a` in a feed that `user` subscribes to.
pub open spec fn in_subscribed_feed(subs: Seq<(u64, usize)>, o: (usize, usize), user: u64, a: usize) -> bool {
    o.0 == a && subs.contains((user, o.1))
}

/// Of `relevant`, in order, the articles seen in a feed that `user`
/// subscribes to and not viewed by `user`.
pub open spec fn candidate_articles(
    subs: Seq<(u64, usize)>,
    occs: Seq<(usize, usize)>,
    views: Seq<(u64, usize)>,
    user: u64,
    relevant: Seq<usize>,
) -> Seq<usize>
    decreases relevant.len(),
{
    if relevant.len() == 0 {
        Seq::empty()
    } else {
        let r = candidate_articles(subs, occs, views, user, relevant.drop_last());
        let a = relevant.last();
        if (exists|k: int| 0 <= k < occs.len() && #[trigger] in_subscribed_feed(subs, occs[k], user, a)) && !views.contains((user, a)) {
            r.push(a)
        } else {
            r
        }
    }
}

/// Article ids as the digest takes them.
pub open spec fn ids_u64(s: Seq<usize>) -> Seq<u64> {
    Seq::new(s.len(), |k: int| s[k] as u64)
}

impl Catalog {
    /// No two feeds share a URL, no two articles a canonical URL, and no
    /// relation holds a pair twice.
    pub open spec fn wf(&self) -> bool {
        &&& string_views(self.feeds@).no_duplicates()
        &&& string_views(self.articles@).no_duplicates()
        &&& self.subscriptions@.no_duplicates()
        &&& self.occurrences@.no_duplicates()
        &&& self.views@.no_duplicates()
        &&& self.view_ratings@.len() == self.views@.len()
        &&& forall|k: int| 0 <= k < self.subscriptions@.len() ==> 1 <= #[trigger] self.subscriptions@[k].1 <= self.feeds@.len()
    }

    /// An empty catalog.
    pub fn new() -> (r: Catalog)
        ensures
            r.wf(),
            r.feeds@.len() == 0,
            r.articles@.len() == 0,
            r.subscriptions@.len() == 0,
            r.occurrences@.len() == 0,
            r.views@.len() == 0,
    {
        let r = Catalog {
            feeds: Vec::new(),
            articles: Vec::new(),
            subscriptions: Vec::new(),
            occurrences: Vec::new(),
            views: Vec::new(),
            view_ratings: Vec::new(),
        };
        assert(string_views(r.feeds@) =~= Seq::<Seq<char>>::empty());
        assert(string_views(r.articles@) =~= Seq::<Seq<char>>::empty());
        r
    }

    /// The id of the feed with this URL, added when there is none.
    pub fn feed_for_url(&mut self, url: &str) -> (r: usize)
        requires
            old(self).wf(),
            old(self).feeds@.len() < usize::MAX,
        ensures
            final(self).wf(),
            1 <= r <= final(self).feeds@.len(),
            final(self).feeds@[r - 1]@ == url@,
            final(self).feeds@.len() >= old(self).feeds@.len(),
            string_views(old(self).feeds@).contains(url@) ==> final(self).feeds@ == old(self).feeds@,
            !string_views(old(self).feeds@).contains(url@) ==> string_views(final(self).feeds@) == string_views(old(self).feeds@).push(url@),
            final(self).articles@ == old(self).articles@,
            final(self).subscriptions@ == old(self).subscriptions@,
            final(self).occurrences@ == old(self).occurrences@,
            final(self).views@ == old(self).views@,
    {
        match find_text(&self.feeds, url) {
            Some(i) => {
                assert(string_views(self.feeds@)[i as int] == url@);
                i + 1
            },
            None => {
                let ghost before = string_views(self.feeds@);
                proof {
                    assert forall|j: int| 0 <= j < before.len() implies before[j] != url@ by {
                        assert(before[j] == self.feeds@[j]@);
                    }
                }
                self.feeds.push(String::from_str(url));
                assert(string_views(self.feeds@) =~= before.push(url@));
                assert(forall|k: int| 0 <= k < self.subscriptions@.len() ==> 1 <= #[trigger] self.subscriptions@[k].1 <= self.feeds@.len());
                self.feeds.len()
            },
        }
    }

    /// Subscribes a user to the feed with this URL: the feed is shared by
    /// every subscriber, and subscribing twice changes nothing and gives
    /// the same subscription id.
    pub fn subscribe(&mut self, user_id: u64, url: &str) -> (r: Subscribed)
        requires
            old(self).wf(),
            old(self).feeds@.len() < usize::MAX,
            old(self).subscriptions@.len() < usize::MAX,
        ensures
            final(self).wf(),
            1 <= r.feed_id <= final(self).feeds@.len(),
            final(self).feeds@[r.feed_id - 1]@ == url@,
            1 <= r.subscription_id <= final(self).subscriptions@.len(),
            final(self).subscriptions@[r.subscription_id - 1] == (user_id, r.feed_id),
            r.already_subscribed <==> old(self).subscriptions@.contains((user_id, r.feed_id)),
            r.already_subscribed ==> final(self).subscriptions@ == old(self).subscriptions@,
            !r.already_subscribed ==> final(self).subscriptions@ == old(self).subscriptions@.push((user_id, r.feed_id)),
            string_views(old(self).feeds@).contains(url@) ==> final(self).feeds@ == old(self).feeds@,
            !string_views(old(self).feeds@).contains(url@) ==> string_views(final(self).feeds@) == string_views(old(self).feeds@).push(url@),
            final(self).articles@ == old(self).articles@,
            final(self).occurrences@ == old(self).occurrences@,
            final(self).views@ == old(self).views@,
    {
        let feed_id = self.feed_for_url(url);
        match find_user_pair(&self.subscriptions, user_id, feed_id) {
            Some(i) => {
                assert(self.subscriptions@.contains((user_id, feed_id)));
                Subscribed { feed_id, subscription_id: i + 1, already_subscribed: true }
            },
            None => {
                let ghost prev = self.subscriptions@;
                self.subscriptions.push((user_id, feed_id));
                assert forall|k: int| 0 <= k < self.subscriptions@.len() implies 1 <= #[trigger] self.subscriptions@[k].1 <= self.feeds@.len() by {
                    if k < prev.len() {
                        assert(self.subscriptions@[k] == prev[k]);
                    }
                }
                Subscribed { feed_id, subscription_id: self.subscriptions.len(), already_subscribed: false }
            },
        }
    }

    /// The id of the article with this canonical URL and whether it was
    /// added by this call.
    pub fn upsert_article(&mut self, canonical_url: &str) -> (r: (usize, bool))
        requires
            old(self).wf(),
            old(self).articles@.len() < usize::MAX,
        ensures
            final(self).wf(),
            1 <= r.0 <= final(self).articles@.len(),
            final(self).articles@[r.0 - 1]@ == canonical_url@,
            r.1 <==> !string_views(old(self).articles@).contains(canonical_url@),
            !r.1 ==> final(self).articles@ == old(self).articles@,
            r.1 ==> string_views(final(self).articles@) == string_views(old(self).articles@).push(canonical_url@),
            final(self).feeds@ == old(self).feeds@,
            final(self).subscriptions@ == old(self).subscriptions@,
            final(self).occurrences@ == old(self).occurrences@,
            final(self).views@ == old(self).views@,
    {
        match find_text(&self.articles, canonical_url) {
            Some(i) => {
                assert(string_views(self.articles@)[i as int] == canonical_url@);
                (i + 1, false)
            },
            None => {
                let ghost before = string_views(self.articles@);
                proof {
                    assert forall|j: int| 0 <= j < before.len() implies before[j] != canonical_url@ by {
                        assert(before[j] == self.articles@[j]@);
                    }
                }
                self.articles.push(String::from_str(canonical_url));
                assert(string_views(self.articles@) =~= before.push(canonical_url@));
                (self.articles.len(), true)
            },
        }
    }

    /// Records that an article was seen in a feed; a second record of the
    /// same pair changes nothing. Returns whether the pair was new.
    pub fn record_occurrence(&mut self, article_id: usize, feed_id: usize) -> (r: bool)
        requires
            old(self).wf(),
        ensures
            final(self).wf(),
            r <==> !old(self).occurrences@.contains((article_id, feed_id)),
            r ==> final(self).occurrences@ == old(self).occurrences@.push((article_id, feed_id)),
            !r ==> final(self).occurrences@ == old(self).occurrences@,
            final(self).feeds@ == old(self).feeds@,
            final(self).articles@ == old(self).articles@,
            final(self).subscriptions@ == old(self).subscriptions@,
            final(self).views@ == old(self).views@,
    {
        match find_id_pair(&self.occurrences, article_id, feed_id) {
            Some(i) => {
                assert(self.occurrences@.contains((article_id, feed_id)));
                false
            },
            None => {
                self.occurrences.push((article_id, feed_id));
                true
            },
        }
    }

    /// Records that a user saw an article, in any session; a second record
    /// changes nothing. Returns whether the view was new.
    pub fn record_view(&mut self, user_id: u64, article_id: usize) -> (r: bool)
        requires
            old(self).wf(),
        ensures
            final(self).wf(),
            r <==> !old(self).views@.contains((user_id, article_id)),
            r ==> final(self).views@ == old(self).views@.push((user_id, article_id)),
            !r ==> final(self).views@ == old(self).views@,
            final(self).views@.contains((user_id, article_id)),
            final(self).feeds@ == old(self).feeds@,
            final(self).articles@ == old(self).articles@,
            final(self).subscriptions@ == old(self).subscriptions@,
            final(self).occurrences@ == old(self).occurrences@,
    {
        match find_user_pair(&self.views, user_id, article_id) {
            Some(i) => {
                assert(self.views@.contains((user_id, article_id)));
                false
            },
            None => {
                self.views.push((user_id, article_id));
                self.view_ratings.push(None);
                assert(self.views@[self.views@.len() - 1] == (user_id, article_id));
                true
            },
        }
    }

    /// Stores the entries of a feed, given by their links: an entry without
    /// a link is skipped; each article is added once by its canonical URL and
    /// its occurrence in the feed recorded. Returns the ids of the articles
    /// that were new.
    pub fn store_feed_items(&mut self, feed_id: usize, links: &Vec<String>) -> (r: Vec<usize>)
        requires
            old(self).wf(),
            old(self).articles@.len() + links@.len() < usize::MAX,
        ensures
            final(self).wf(),
            final(self).articles@.len() == old(self).articles@.len() + r@.len(),
            string_views(final(self).articles@) == stored_after(string_views(old(self).articles@), string_views(links@)),
            forall|k: int| 0 <= k < r@.len() ==> #[trigger] r@[k] == old(self).articles@.len() + k + 1,
            r@.no_duplicates(),
            forall|k: int| 0 <= k < r@.len() ==> old(self).articles@.len() < #[trigger] r@[k] <= final(self).articles@.len(),
            forall|j: int| 0 <= j < links@.len() && #[trigger] links@[j]@.len() > 0 ==> exists|k: int|
                0 <= k < final(self).articles@.len() && final(self).articles@[k]@ == links@[j]@
                    && final(self).occurrences@.contains(((k + 1) as usize, feed_id)),
            forall|k: int| 0 <= k < old(self).articles@.len() ==> final(self).articles@[k]@ == old(self).articles@[k]@,
            forall|o| old(self).occurrences@.contains(o) ==> final(self).occurrences@.contains(o),
            final(self).feeds@ == old(self).feeds@,
            final(self).subscriptions@ == old(self).subscriptions@,
            final(self).views@ == old(self).views@,
    {
        let mut r: Vec<usize> = Vec::new();
        let mut i: usize = 0;
        let ghost start = self.articles@;
        let ghost start_occ = self.occurrences@;
        while i < links.len()
            invariant
                self.wf(),
                i <= links@.len(),
                start == old(self).articles@,
                start_occ == old(self).occurrences@,
                self.articles@.len() == start.len() + r@.len(),
                string_views(self.articles@) == stored_after(string_views(start), string_views(links@).take(i as int)),
                forall|k: int| 0 <= k < r@.len() ==> #[trigger] r@[k] == start.len() + k + 1,
                r@.len() <= i,
                start.len() + links@.len() < usize::MAX,
                forall|k: int| 0 <= k < r@.len() ==> start.len() < #[trigger] r@[k] <= self.articles@.len(),
                forall|j: int| 0 <= j < i && #[trigger] links@[j]@.len() > 0 ==> exists|k: int|
                    0 <= k < self.articles@.len() && self.articles@[k]@ == links@[j]@
                        && self.occurrences@.contains(((k + 1) as usize, feed_id)),
                forall|k: int| 0 <= k < start.len() ==> self.articles@[k]@ == start[k]@,
                forall|o| start_occ.contains(o) ==> self.occurrences@.contains(o),
                self.feeds@ == old(self).feeds@,
                self.subscriptions@ == old(self).subscriptions@,
                self.views@ == old(self).views@,
            decreases links.len() - i,
        {
            let link = links[i].as_str();
            let n = crate::text::chars_of(link).len();
            let ghost lv = string_views(links@);
            proof {
                assert(lv.take(i + 1).drop_last() =~= lv.take(i as int));
                assert(lv.take(i + 1).last() == links@[i as int]@);
            }
            if n > 0 {
                let ghost prev = self.articles@;
                let ghost prev_occ = self.occurrences@;
                let ghost prev_r = r@;
                let (id, was_new) = self.upsert_article(link);
                let ghost mid = self.articles@;
                let fresh = self.record_occurrence(id, feed_id);
                proof {
                    if fresh {
                        assert(self.occurrences@[self.occurrences@.len() - 1] == (id, feed_id));
                    }
                    assert(self.occurrences@.contains((id, feed_id)));
                    assert(self.articles@ == mid);
                    if was_new {
                        assert(string_views(mid) == string_views(prev).push(link@));
                        assert(string_views(mid).len() == mid.len());
                        assert(string_views(prev).len() == prev.len());
                        assert(mid.len() == prev.len() + 1);
                        if id - 1 < prev.len() {
                            assert(string_views(mid)[id - 1] == string_views(prev)[id - 1]);
                            assert(string_views(prev)[id - 1] == link@);
                            assert(string_views(prev).contains(link@));
                        }
                        assert(id == mid.len());
                    } else {
                        assert(mid == prev);
                    }
                    assert forall|o| prev_occ.contains(o) implies self.occurrences@.contains(o) by {
                        if prev_occ.contains(o) && self.occurrences@ != prev_occ {
                            let w = choose|w: int| 0 <= w < prev_occ.len() && prev_occ[w] == o;
                            assert(self.occurrences@[w] == o);
                        }
                    }
                    assert forall|k: int| 0 <= k < prev.len() implies #[trigger] self.articles@[k]@ == prev[k]@ by {
                        if was_new {
                            assert(string_views(mid)[k] == string_views(prev)[k]);
                            assert(string_views(mid)[k] == mid[k]@);
                            assert(string_views(prev)[k] == prev[k]@);
                        }
                    }
                    assert forall|j: int| 0 <= j < i + 1 && #[trigger] links@[j]@.len() > 0 implies exists|k: int|
                        0 <= k < self.articles@.len() && self.articles@[k]@ == links@[j]@
                            && self.occurrences@.contains(((k + 1) as usize, feed_id)) by {
                        if j < i {
                            let k = choose|k: int|
                                0 <= k < prev.len() && prev[k]@ == links@[j]@
                                    && prev_occ.contains(((k + 1) as usize, feed_id));
                            assert(self.articles@[k]@ == prev[k]@);
                        } else {
                            let k = id - 1;
                            assert(self.articles@[k]@ == links@[j]@);
                            assert(((k + 1) as usize) == id);
                        }
                    }
                    assert forall|k: int| 0 <= k < start.len() implies self.articles@[k]@ == start[k]@ by {
                        assert(self.articles@[k]@ == prev[k]@);
                    }
                    assert forall|o| start_occ.contains(o) implies self.occurrences@.contains(o) by {
                        assert(prev_occ.contains(o));
                    }
                }
                if was_new {
                    r.push(id);
                    proof {
                        assert forall|k: int| 0 <= k < r@.len() implies start.len() < #[trigger] r@[k] <= self.articles@.len() by {
                            if k < prev_r.len() {
                                assert(r@[k] == prev_r[k]);
                            }
                        }
                        assert forall|k: int| 0 <= k < r@.len() implies #[trigger] r@[k] == start.len() + k + 1 by {
                            if k < prev_r.len() {
                                assert(r@[k] == prev_r[k]);
                            }
                        }
                    }
                }
            }
            i = i + 1;
        }
        assert(string_views(links@).take(links@.len() as int) =~= string_views(links@));
        proof {
            assert forall|a: int, b: int| 0 <= a < r@.len() && 0 <= b < r@.len() && a != b implies r@[a] != r@[b] by {
                assert(r@[a] == start.len() + a + 1);
                assert(r@[b] == start.len() + b + 1);
            }
        }
        r
    }

    /// The digest of a user from candidate articles (ids of this catalog, in
    /// rank order, with their word counts): the articles the user has seen
    /// are left out, and the rest fitted to the budget. Returns positions in
    /// `article_ids`.
    pub fn unread_digest(
        &self,
        user_id: u64,
        article_ids: &Vec<usize>,
        word_counts: &Vec<u64>,
        target: u64,
        cap: usize,
    ) -> (r: Vec<usize>)
        requires
            article_ids@.len() == word_counts@.len(),
        ensures
            r@.len() == digest_spec(
                ids_u64(article_ids@),
                word_counts@,
                ids_u64(viewed_articles(self.views@, user_id)),
                target as int,
                cap as int,
            ).len(),
            forall|k: int| 0 <= k < r@.len() ==> r@[k] as int == digest_spec(
                ids_u64(article_ids@),
                word_counts@,
                ids_u64(viewed_articles(self.views@, user_id)),
                target as int,
                cap as int,
            )[k],
            forall|k: int| 0 <= k < r@.len() ==> (r@[k] as int) < article_ids@.len()
                && !self.views@.contains((user_id, #[trigger] article_ids@[r@[k] as int])),
    {
        let seen = self.viewed_by(user_id);
        let mut viewed: Vec<u64> = Vec::new();
        let mut i: usize = 0;
        while i < seen.len()
            invariant
                i <= seen@.len(),
                viewed@.len() == i,
                forall|k: int| 0 <= k < i ==> viewed@[k] == seen@[k] as u64,
            decreases seen.len() - i,
        {
            viewed.push(seen[i] as u64);
            i = i + 1;
        }
        let mut ids: Vec<u64> = Vec::new();
        let mut j: usize = 0;
        while j < article_ids.len()
            invariant
                j <= article_ids@.len(),
                ids@.len() == j,
                forall|k: int| 0 <= k < j ==> ids@[k] == article_ids@[k] as u64,
            decreases article_ids.len() - j,
        {
            ids.push(article_ids[j] as u64);
            j = j + 1;
        }
        assert(viewed@ =~= ids_u64(seen@));
        assert(ids@ =~= ids_u64(article_ids@));
        let r = crate::digest::assemble_digest(&ids, word_counts, &viewed, target, cap);
        proof {
            assert forall|k: int| 0 <= k < r@.len() implies (r@[k] as int) < article_ids@.len()
                && !self.views@.contains((user_id, #[trigger] article_ids@[r@[k] as int])) by {
                let a = article_ids@[r@[k] as int];
                if self.views@.contains((user_id, a)) {
                    assert(seen@.contains(a));
                    let w = choose|w: int| 0 <= w < seen@.len() && seen@[w] == a;
                    assert(viewed@[w] == ids@[r@[k] as int]);
                    assert(viewed@.contains(ids@[r@[k] as int]));
                }
            }
        }
        r
    }

    /// Records a star rating on the view of an article by a user. Returns
    /// whether there was such a view; without one nothing changes.
    pub fn record_rating(&mut self, user_id: u64, article_id: usize, rating: u8) -> (r: bool)
        requires
            old(self).wf(),
            1 <= rating <= 5,
        ensures
            final(self).wf(),
            r <==> old(self).views@.contains((user_id, article_id)),
            final(self).views@ == old(self).views@,
            r ==> exists|k: int| 0 <= k < final(self).views@.len() && final(self).views@[k] == (user_id, article_id)
                && final(self).view_ratings@ == old(self).view_ratings@.update(k, Some(rating)),
            !r ==> final(self).view_ratings@ == old(self).view_ratings@,
            final(self).feeds@ == old(self).feeds@,
            final(self).articles@ == old(self).articles@,
            final(self).subscriptions@ == old(self).subscriptions@,
            final(self).occurrences@ == old(self).occurrences@,
    {
        match find_user_pair(&self.views, user_id, article_id) {
            Some(i) => {
                assert(self.views@.contains((user_id, article_id)));
                self.view_ratings.set(i, Some(rating));
                true
            },
            None => false,
        }
    }

    /// The articles that a user's digest may draw on: of the given articles
    /// (those with a relevant personalized summary for the user), the ones
    /// seen in a feed the user subscribes to and not yet viewed by the user,
    /// in order.
    pub fn candidates_for(&self, user_id: u64, relevant: &Vec<usize>) -> (r: Vec<usize>)
        ensures
            r@ == candidate_articles(self.subscriptions@, self.occurrences@, self.views@, user_id, relevant@),
    {
        let mut r: Vec<usize> = Vec::new();
        let mut i: usize = 0;
        while i < relevant.len()
            invariant
                i <= relevant@.len(),
                r@ == candidate_articles(self.subscriptions@, self.occurrences@, self.views@, user_id, relevant@.take(i as int)),
            decreases relevant.len() - i,
        {
            let a = relevant[i];
            proof {
                assert(relevant@.take(i + 1).drop_last() =~= relevant@.take(i as int));
                assert(relevant@.take(i + 1).last() == a);
            }
            let mut found = false;
            let mut j: usize = 0;
            while j < self.occurrences.len()
                invariant
                    j <= self.occurrences@.len(),
                    found == exists|k: int| 0 <= k < j && #[trigger] in_subscribed_feed(self.subscriptions@, self.occurrences@[k], user_id, a),
                decreases self.occurrences.len() - j,
            {
                let (art, feed) = self.occurrences[j];
                if art == a {
                    if find_user_pair(&self.subscriptions, user_id, feed).is_some() {
                        found = true;
                    }
                }
                proof {
                    if found && !(exists|k: int| 0 <= k < j && #[trigger] in_subscribed_feed(self.subscriptions@, self.occurrences@[k], user_id, a)) {
                        assert(in_subscribed_feed(self.subscriptions@, self.occurrences@[j as int], user_id, a));
                    }
                }
                j = j + 1;
            }
            if found && find_user_pair(&self.views, user_id, a).is_none() {
                r.push(a);
            }
            i = i + 1;
        }
        assert(relevant@.take(relevant@.len() as int) =~= relevant@);
        r
    }

    /// The ids of the articles that a user has seen.
    pub fn viewed_by(&self, user_id: u64) -> (r: Vec<usize>)
        ensures
            r@ == viewed_articles(self.views@, user_id),
            forall|a: usize| r@.contains(a) <==> self.views@.contains((user_id, a)),
    {
        let mut r: Vec<usize> = Vec::new();
        let mut i: usize = 0;
        while i < self.views.len()
            invariant
                i <= self.views@.len(),
                r@ == viewed_articles(self.views@.take(i as int), user_id),
                forall|a: usize| r@.contains(a) <==> exists|j: int| 0 <= j < i && self.views@[j] == (user_id, a),
            decreases self.views.len() - i,
        {
            let (u, a) = self.views[i];
            let ghost prev = r@;
            proof {
                assert(self.views@.take(i + 1).drop_last() =~= self.views@.take(i as int));
                assert(self.views@.take(i + 1).last() == self.views@[i as int]);
            }
            if u == user_id {
                r.push(a);
                proof {
                    assert forall|b: usize| r@.contains(b) <==> exists|j: int| 0 <= j < i + 1 && self.views@[j] == (user_id, b) by {
                        if r@.contains(b) && b != a {
                            let k = choose|k: int| 0 <= k < r@.len() && r@[k] == b;
                            assert(prev[k] == b);
                            assert(prev.contains(b));
                        }
                        if b == a {
                            assert(r@[r@.len() - 1] == a);
                        }
                        if exists|j: int| 0 <= j < i && self.views@[j] == (user_id, b) {
                            assert(prev.contains(b));
                            let k = choose|k: int| 0 <= k < prev.len() && prev[k] == b;
                            assert(r@[k] == b);
                        }
                    }
                }
            } else {
                proof {
                    assert forall|b: usize| r@.contains(b) <==> exists|j: int| 0 <= j < i + 1 && self.views@[j] == (user_id, b) by {
                        if exists|j: int| 0 <= j < i + 1 && self.views@[j] == (user_id, b) {
                            let j = choose|j: int| 0 <= j < i + 1 && self.views@[j] == (user_id, b);
                            assert(j < i);
                        }
                    }
                }
            }
            i = i + 1;
        }
        proof {
            assert forall|a: usize| r@.contains(a) <==> self.views@.contains((user_id, a)) by {
                if self.views@.contains((user_id, a)) {
                    let j = choose|j: int| 0 <= j < self.views@.len() && self.views@[j] == (user_id, a);
                }
            }
        }
        assert(self.views@.take(self.views@.len() as int) =~= self.views@);
        r
    }
}

/// One article per canonical URL: in a well-formed catalog, two articles
/// with the same canonical URL are the same article.
pub proof fn lemma_one_article_per_url(c: Catalog, i: int, j: int)
    requires
        c.wf(),
        0 <= i < c.articles@.len(),
        0 <= j < c.articles@.len(),
        c.articles@[i]@ == c.articles@[j]@,
    ensures
        i == j,
{
    assert(string_views(c.articles@)[i] == string_views(c.articles@)[j]);
}

/// One feed per URL: every subscriber of a URL shares the one feed.
pub proof fn lemma_one_feed_per_url(c: Catalog, i: int, j: int)
    requires
        c.wf(),
        0 <= i < c.feeds@.len(),
        0 <= j < c.feeds@.len(),
        c.feeds@[i]@ == c.feeds@[j]@,
    ensures
        i == j,
{
    assert(string_views(c.feeds@)[i] == string_views(c.feeds@)[j]);
}

/// One subscription per user and feed: two subscription ids that name the
/// same pair are the same id.
pub proof fn lemma_one_subscription_per_pair(c: Catalog, i: int, j: int)
    requires
        c.wf(),
        0 <= i < c.subscriptions@.len(),
        0 <= j < c.subscriptions@.len(),
        c.subscriptions@[i] == c.subscriptions@[j],
    ensures
        i == j,
{
}

/// One view per user and article.
pub proof fn lemma_one_view_per_pair(c: Catalog, i: int, j: int)
    requires
        c.wf(),
        0 <= i < c.views@.len(),
        0 <= j < c.views@.len(),
        c.views@[i] == c.views@[j],
    ensures
        i == j,
{
}

/// Subscribing twice: a repeated subscription of a user to a URL, on the
/// catalog that the first one left, returns the same feed and subscription
/// ids, reports that the user was subscribed, and changes nothing.
pub proof fn lemma_subscribe_twice(
    c1: Catalog,
    c2: Catalog,
    user_id: u64,
    url: Seq<char>,
    first: Subscribed,
    second: Subscribed,
)
    requires
        c1.wf(),
        1 <= first.feed_id <= c1.feeds@.len(),
        c1.feeds@[first.feed_id - 1]@ == url,
        1 <= first.subscription_id <= c1.subscriptions@.len(),
        c1.subscriptions@[first.subscription_id - 1] == (user_id, first.feed_id),
        1 <= second.feed_id <= c2.feeds@.len(),
        c2.feeds@[second.feed_id - 1]@ == url,
        1 <= second.subscription_id <= c2.subscriptions@.len(),
        c2.subscriptions@[second.subscription_id - 1] == (user_id, second.feed_id),
        string_views(c1.feeds@).contains(url) ==> c2.feeds@ == c1.feeds@,
        second.already_subscribed <==> c1.subscriptions@.contains((user_id, second.feed_id)),
        second.already_subscribed ==> c2.subscriptions@ == c1.subscriptions@,
    ensures
        second.feed_id == first.feed_id,
        second.already_subscribed,
        second.subscription_id == first.subscription_id,
        c2.subscriptions@ == c1.subscriptions@,
        c2.feeds@ == c1.feeds@,
{
    assert(string_views(c1.feeds@)[first.feed_id - 1] == url);
    assert(string_views(c1.feeds@).contains(url));
    lemma_one_feed_per_url(c1, first.feed_id - 1, second.feed_id - 1);
    assert(c1.subscriptions@.contains((user_id, first.feed_id)));
    lemma_one_subscription_per_pair(c1, first.subscription_id - 1, second.subscription_id - 1);
}

/// Two users, one feed: when two different users subscribe in turn to a URL
/// that no feed had, both get the one new feed, and the subscriptions gain
/// exactly the two rows for it, no earlier row naming that feed.
pub proof fn lemma_two_subscribers_share_feed(
    c0: Catalog,
    c1: Catalog,
    c2: Catalog,
    a: u64,
    b: u64,
    url: Seq<char>,
    r1: Subscribed,
    r2: Subscribed,
)
    requires
        c0.wf(),
        c2.wf(),
        a != b,
        !string_views(c0.feeds@).contains(url),
        1 <= r1.feed_id <= c1.feeds@.len(),
        c1.feeds@[r1.feed_id - 1]@ == url,
        string_views(c1.feeds@) == string_views(c0.feeds@).push(url),
        r1.already_subscribed <==> c0.subscriptions@.contains((a, r1.feed_id)),
        r1.already_subscribed ==> c1.subscriptions@ == c0.subscriptions@,
        !r1.already_subscribed ==> c1.subscriptions@ == c0.subscriptions@.push((a, r1.feed_id)),
        1 <= r2.feed_id <= c2.feeds@.len(),
        c2.feeds@[r2.feed_id - 1]@ == url,
        string_views(c1.feeds@).contains(url) ==> c2.feeds@ == c1.feeds@,
        r2.already_subscribed <==> c1.subscriptions@.contains((b, r2.feed_id)),
        r2.already_subscribed ==> c2.subscriptions@ == c1.subscriptions@,
        !r2.already_subscribed ==> c2.subscriptions@ == c1.subscriptions@.push((b, r2.feed_id)),
    ensures
        r1.feed_id == c0.feeds@.len() + 1,
        r2.feed_id == r1.feed_id,
        c2.subscriptions@ == c0.subscriptions@.push((a, r1.feed_id)).push((b, r1.feed_id)),
        forall|k: int| 0 <= k < c0.subscriptions@.len() ==> #[trigger] c0.subscriptions@[k].1 != r1.feed_id,
        forall|i: int| 0 <= i < c2.feeds@.len() && c2.feeds@[i]@ == url ==> i == r1.feed_id - 1,
{
    let v0 = string_views(c0.feeds@);
    let v1 = string_views(c1.feeds@);
    assert(v1.len() == c1.feeds@.len());
    assert(v0.len() == c0.feeds@.len());
    if r1.feed_id - 1 < c0.feeds@.len() {
        assert(v1[r1.feed_id - 1] == v0[r1.feed_id - 1]);
        assert(v1[r1.feed_id - 1] == url);
        assert(v0.contains(url));
    }
    assert(forall|k: int| 0 <= k < c0.subscriptions@.len() ==> #[trigger] c0.subscriptions@[k].1 <= c0.feeds@.len());
    assert(v1.len() == v0.len() + 1);
    assert(r1.feed_id == c0.feeds@.len() + 1);
    assert(!c0.subscriptions@.contains((a, r1.feed_id))) by {
        if c0.subscriptions@.contains((a, r1.feed_id)) {
            let k = choose|k: int| 0 <= k < c0.subscriptions@.len() && c0.subscriptions@[k] == (a, r1.feed_id);
            assert(c0.subscriptions@[k].1 <= c0.feeds@.len());
        }
    }
    assert(v1[v0.len() as int] == url);
    assert(v1.contains(url));
    assert(c2.feeds@ == c1.feeds@);
    lemma_one_feed_per_url(c2, r1.feed_id - 1, r2.feed_id - 1);
    assert(!c1.subscriptions@.contains((b, r2.feed_id))) by {
        if c1.subscriptions@.contains((b, r2.feed_id)) {
            let k = choose|k: int| 0 <= k < c1.subscriptions@.len() && c1.subscriptions@[k] == (b, r2.feed_id);
            if k < c0.subscriptions@.len() {
                assert(c1.subscriptions@[k] == c0.subscriptions@[k]);
                assert(c0.subscriptions@[k].1 <= c0.feeds@.len());
            }
        }
    }
    assert forall|i: int| 0 <= i < c2.feeds@.len() && c2.feeds@[i]@ == url implies i == r1.feed_id - 1 by {
        lemma_one_feed_per_url(c2, i, r1.feed_id - 1);
    }
}

} // verus!
