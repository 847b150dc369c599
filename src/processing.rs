//! The article pipeline's own steps: batching, the choice of the text to
//! summarize, its rendering from HTML, the reading of category labels and
//! the text that an article's embedding is computed from.
use vstd::prelude::*;
use crate::llm::opt_view;
use crate::text::{
    chars_of, char_vec_views, join_strings, join_with, push_all, push_str, same_text, slice_of, split_on,
    split_on_exec, string_of, string_views, trim, trim_range,
};

verus! {

/// The number of articles processed together before a pause.
pub const BATCH_SIZE: usize = 5;

/// Content shorter than this many characters is completed by scraping.
pub const SCRAPE_BELOW_CHARS: usize = 100;

/// Content shorter than this many characters, even after scraping, is not
/// summarized.
pub const SUMMARIZE_FROM_CHARS: usize = 50;

/// The column at which rendered text is wrapped.
pub const TEXT_WIDTH: usize = 80;

/// The characters of content used for an embedding when there is no summary.
pub const EMBED_CONTENT_CHARS: usize = 500;

/// Why an article could not be prepared.
#[derive(Debug, Clone, Copy, PartialEq, Eq, Structural)]
pub enum ProcessingError {
    /// The HTML could not be rendered as text.
    Render,
}

/// Chunk `k` of `ids` cut in chunks of `size`.
pub open spec fn chunk_spec(ids: Seq<i64>, size: int, k: int) -> Seq<i64> {
    let lo = k * size;
    let hi = if (k + 1) * size <= ids.len() { (k + 1) * size } else { ids.len() as int };
    ids.subrange(lo, hi)
}

/// The number of chunks of `size` that `n` items make.
pub open spec fn chunk_count(n: int, size: int) -> int {
    (n + size - 1) / size
}

/// Cuts `ids` in consecutive chunks of `size`, the last one possibly shorter.
pub fn batch_chunks(ids: &Vec<i64>, size: usize) -> (r: Vec<Vec<i64>>)
    requires
        size > 0,
    ensures
        r@.len() == chunk_count(ids@.len() as int, size as int),
        forall|k: int| 0 <= k < r@.len() ==> r@[k]@ == chunk_spec(ids@, size as int, k),
{
    let n = ids.len();
    let mut r: Vec<Vec<i64>> = Vec::new();
    let mut lo: usize = 0;
    proof {
        assert(r@.len() * size == 0) by (nonlinear_arith)
            requires
                r@.len() == 0,
        ;
        if n == 0 {
            assert(chunk_count(0, size as int) == 0) by (nonlinear_arith)
                requires
                    size > 0,
            ;
        }
    }
    while lo < n
        invariant
            n == ids@.len(),
            size > 0,
            lo <= n,
            lo < n ==> lo as int == r@.len() * size,
            lo == n ==> r@.len() == chunk_count(n as int, size as int),
            lo < n ==> r@.len() * size < n,
            forall|k: int| 0 <= k < r@.len() ==> r@[k]@ == chunk_spec(ids@, size as int, k),
        decreases n - lo,
    {
        let hi = if size <= n - lo {
            lo + size
        } else {
            n
        };
        let mut c: Vec<i64> = Vec::new();
        let mut j = lo;
        while j < hi
            invariant
                lo <= j <= hi,
                hi <= ids@.len(),
                c@ == ids@.subrange(lo as int, j as int),
            decreases hi - j,
        {
            c.push(ids[j]);
            assert(c@ =~= ids@.subrange(lo as int, j + 1));
            j = j + 1;
        }
        let ghost k = r@.len() as int;
        proof {
            assert(k * size + size == (k + 1) * size) by (nonlinear_arith);
        }
        r.push(c);
        proof {
            if hi < n {
                assert(r@.len() * size == k * size + size) by (nonlinear_arith)
                    requires
                        r@.len() == k + 1,
                ;
            } else {
                assert(chunk_count(n as int, size as int) == k + 1) by (nonlinear_arith)
                    requires
                        k * size < n,
                        n <= k * size + size,
                        size > 0,
                ;
            }
        }
        lo = hi;
    }
    r
}

/// Whether an article's content is short enough to be completed by scraping.
pub fn needs_scrape(content: &str) -> (r: bool)
    ensures
        r == (content@.len() < SCRAPE_BELOW_CHARS),
{
    let v = chars_of(content);
    v.len() < SCRAPE_BELOW_CHARS
}

/// A name for what `html2text` renders from a piece of HTML at a given
/// width, or `None` when it fails.
pub uninterp spec fn rendered_text(html: Seq<char>, width: usize) -> Option<Seq<char>>;

/// Relies on `html2text::from_read`: the HTML rendered as plain text wrapped
/// at `width` columns; the result depends on its two arguments alone.
#[verifier::external_body]
fn html_to_text(html: &str, width: usize) -> (r: Option<String>)
    ensures
        opt_view(r) == rendered_text(html@, width),
{
    html2text::from_read(html.as_bytes(), width).ok()
}

/// The text to summarize: the scraped text when the content was short and
/// scraping gave a longer text, else the content (a scrape no longer than
/// the content is degraded).
pub open spec fn chosen_text(content: Seq<char>, scraped: Option<Seq<char>>) -> Seq<char> {
    if content.len() < SCRAPE_BELOW_CHARS {
        match scraped {
            Some(s) => if s.len() > content.len() {
                s
            } else {
                content
            },
            None => content,
        }
    } else {
        content
    }
}

/// Prepares an article for summarizing: picks its text, leaves it out
/// (`Ok(None)`) when it is under 50 characters, and renders it from HTML.
pub fn prepare_article_text(content: &str, scraped: Option<&str>) -> (r: Result<Option<String>, ProcessingError>)
    ensures
        ({
            let t = chosen_text(content@, match scraped {
                Some(s) => Some(s@),
                None => None,
            });
            if t.len() < SUMMARIZE_FROM_CHARS {
                r == Ok::<Option<String>, ProcessingError>(None)
            } else {
                match rendered_text(t, TEXT_WIDTH) {
                    Some(x) => r matches Ok(Some(y)) && y@ == x,
                    None => r == Err::<Option<String>, ProcessingError>(ProcessingError::Render),
                }
            }
        }),
{
    let text: &str = if needs_scrape(content) {
        match scraped {
            Some(s) => if chars_of(s).len() > chars_of(content).len() {
                s
            } else {
                content
            },
            None => content,
        }
    } else {
        content
    };
    let v = chars_of(text);
    if v.len() < SUMMARIZE_FROM_CHARS {
        return Ok(None);
    }
    match html_to_text(text, TEXT_WIDTH) {
        Some(x) => Ok(Some(x)),
        None => Err(ProcessingError::Render),
    }
}

/// The closed set of categories.
pub open spec fn categories() -> Seq<Seq<char>> {
    seq![
        "politics"@,
        "economy"@,
        "technology"@,
        "sports"@,
        "culture"@,
        "science"@,
        "local_news"@,
        "international"@,
        "faits_divers"@,
        "health"@,
        "environment"@,
    ]
}

/// The labels of the closed set, in order, at most three.
pub open spec fn known_labels(labels: Seq<Seq<char>>) -> Seq<Seq<char>>
    decreases labels.len(),
{
    if labels.len() == 0 {
        Seq::empty()
    } else {
        let r = known_labels(labels.drop_last());
        if r.len() < 3 && categories().contains(labels.last()) {
            r.push(labels.last())
        } else {
            r
        }
    }
}

fn category_list() -> (r: Vec<&'static str>)
    ensures
        r@.len() == categories().len(),
        forall|i: int| 0 <= i < r@.len() ==> r@[i]@ == categories()[i],
{
    vec![
        "politics",
        "economy",
        "technology",
        "sports",
        "culture",
        "science",
        "local_news",
        "international",
        "faits_divers",
        "health",
        "environment",
    ]
}

/// Whether a label belongs to the closed set.
pub fn is_category(label: &str) -> (r: bool)
    ensures
        r == categories().contains(label@),
{
    let list = category_list();
    let mut i: usize = 0;
    while i < list.len()
        invariant
            i <= list@.len(),
            list@.len() == categories().len(),
            forall|j: int| 0 <= j < list@.len() ==> list@[j]@ == categories()[j],
            forall|j: int| 0 <= j < i ==> categories()[j] != label@,
        decreases list.len() - i,
    {
        if same_text(list[i], label) {
            assert(categories()[i as int] == label@);
            return true;
        }
        i = i + 1;
    }
    false
}

/// Keeps the labels of the closed set, in order, at most three.
pub fn known_categories(labels: Vec<String>) -> (r: Vec<String>)
    ensures
        string_views(r@) == known_labels(string_views(labels@)),
{
    let mut r: Vec<String> = Vec::new();
    let mut i: usize = 0;
    let ghost all = string_views(labels@);
    while i < labels.len()
        invariant
            i <= labels@.len(),
            all == string_views(labels@),
            string_views(r@) == known_labels(all.take(i as int)),
        decreases labels.len() - i,
    {
        proof {
            assert(all.take(i + 1).drop_last() =~= all.take(i as int));
            assert(all.take(i + 1).last() == labels@[i as int]@);
        }
        if r.len() < 3 && is_category(labels[i].as_str()) {
            let ghost prev = r@;
            r.push(labels[i].clone());
            assert(string_views(r@) =~= string_views(prev).push(labels@[i as int]@));
        }
        i = i + 1;
    }
    assert(all.take(labels@.len() as int) =~= all);
    r
}

/// A name for what `str::to_lowercase` gives.
pub uninterp spec fn lowercase_of(s: Seq<char>) -> Seq<char>;

/// Relies on `str::to_lowercase`: the lowercase form of a text, which
/// depends on its characters alone.
#[verifier::external_body]
fn lowercase(s: &str) -> (r: String)
    ensures
        r@ == lowercase_of(s@),
{
    s.to_lowercase()
}

/// The labels of a classification answer: its comma-separated parts,
/// trimmed and lowercased.
pub open spec fn answer_labels(answer: Seq<char>) -> Seq<Seq<char>> {
    let parts = split_on(answer, ',');
    Seq::new(parts.len(), |k: int| lowercase_of(trim(parts[k])))
}

/// Reads the categories of an article from the model's answer: the known
/// labels among its comma-separated parts, at most three.
pub fn parse_categories(answer: &str) -> (r: Vec<String>)
    ensures
        string_views(r@) == known_labels(answer_labels(answer@)),
{
    let v = chars_of(answer);
    let parts = split_on_exec(&v, ',');
    let ghost want = answer_labels(answer@);
    let mut labels: Vec<String> = Vec::new();
    let mut k: usize = 0;
    while k < parts.len()
        invariant
            k <= parts@.len(),
            char_vec_views(parts@) == split_on(answer@, ','),
            want == answer_labels(answer@),
            string_views(labels@) == want.take(k as int),
        decreases parts.len() - k,
    {
        let t = trim_range(&parts[k], 0, parts[k].len());
        assert(parts@[k as int]@.subrange(0, parts@[k as int]@.len() as int) =~= parts@[k as int]@);
        assert(char_vec_views(parts@)[k as int] == parts@[k as int]@);
        let ts = string_of(t);
        let low = lowercase(ts.as_str());
        let ghost prev = labels@;
        labels.push(low);
        assert(string_views(labels@) =~= string_views(prev).push(want[k as int]));
        assert(want.take(k + 1) =~= want.take(k as int).push(want[k as int]));
        k = k + 1;
    }
    assert(want.take(parts@.len() as int) =~= want);
    known_categories(labels)
}

/// The text that an article's embedding is computed from: its title, a
/// line break, then its headline and key points separated by spaces, or
/// the first 500 characters of its content when it has no summary.
pub open spec fn embedding_input_spec(
    title: Seq<char>,
    summary: Option<(Seq<char>, Seq<Seq<char>>)>,
    content: Seq<char>,
) -> Seq<char> {
    let body = match summary {
        Some((h, bs)) => h + " "@ + join_with(bs, " "@),
        None => content.take(if content.len() < 500 { content.len() as int } else { 500 }),
    };
    title + "\n"@ + body
}

/// The text to embed for an article.
pub fn embedding_input(title: &str, headline: Option<&str>, bullets: &Vec<String>, content: &str) -> (r: String)
    ensures
        r@ == embedding_input_spec(
            title@,
            match headline {
                Some(h) => Some((h@, string_views(bullets@))),
                None => None,
            },
            content@,
        ),
{
    let mut out: Vec<char> = chars_of(title);
    out.push('\n');
    let ghost head = out@;
    match headline {
        Some(h) => {
            push_all(&mut out, &chars_of(h));
            out.push(' ');
            let joined = join_strings(bullets, " ");
            push_all(&mut out, &joined);
            proof {
                reveal_strlit(" ");
                assert(string_views(bullets@) =~= string_views(bullets@));
                assert(out@ =~= head + (h@ + " "@ + join_with(string_views(bullets@), " "@)));
            }
        },
        None => {
            let cv = chars_of(content);
            let n = if cv.len() < EMBED_CONTENT_CHARS {
                cv.len()
            } else {
                EMBED_CONTENT_CHARS
            };
            push_all(&mut out, &slice_of(&cv, 0, n));
            assert(cv@.subrange(0, n as int) =~= cv@.take(n as int));
        },
    }
    proof {
        reveal_strlit("\n");
    }
    let r = string_of(out);
    assert(r@ =~= embedding_input_spec(
        title@,
        match headline {
            Some(h) => Some((h@, string_views(bullets@))),
            None => None,
        },
        content@,
    ));
    r
}

pub open spec fn classify_prompt_spec(headline: Seq<char>, bullets: Seq<Seq<char>>) -> Seq<char> {
    "Classify this article into categories (max 3): "@ + headline + "\n\nKey points: "@ + join_with(bullets, ", "@)
        + "\n\nCategories: politics, economy, technology, sports, culture, science, local_news, international, faits_divers, health, environment\n\nReturn only category names, comma-separated."@
}

/// The prompt that asks the model for an article's categories.
pub fn classify_prompt(headline: &str, bullets: &Vec<String>) -> (r: String)
    ensures
        r@ == classify_prompt_spec(headline@, string_views(bullets@)),
{
    let mut out: Vec<char> = Vec::new();
    push_str(&mut out, "Classify this article into categories (max 3): ");
    push_str(&mut out, headline);
    push_str(&mut out, "\n\nKey points: ");
    let j = join_strings(bullets, ", ");
    push_all(&mut out, &j);
    push_str(&mut out, "\n\nCategories: politics, economy, technology, sports, culture, science, local_news, international, faits_divers, health, environment\n\nReturn only category names, comma-separated.");
    let r = string_of(out);
    assert(r@ =~= classify_prompt_spec(headline@, string_views(bullets@)));
    r
}

/// The interests named in the relevance prompt: the user's, or `general news`.
pub open spec fn interests_or_general(interests: Seq<Seq<char>>) -> Seq<char> {
    if interests.len() == 0 {
        "general news"@
    } else {
        join_with(interests, ", "@)
    }
}

pub open spec fn relevance_prompt_spec(headline: Seq<char>, bullets: Seq<Seq<char>>, interests: Seq<Seq<char>>) -> Seq<char> {
    let i = interests_or_general(interests);
    "Evaluate if this article is relevant for a user interested in: "@ + i + "\n\nArticle: "@ + headline
        + "\nKey points: "@ + join_with(bullets, ", "@) + "\n\nUser interests: "@ + i
        + "\nPreferred categories: all topics\n\nRate relevance (0.0-1.0) and explain why in 1-2 sentences.\nReturn ONLY valid JSON: {\"score\": 0.8, \"reasons\": [\"matches interest in AI\", \"recent topic\"]}"@
}

/// The prompt that asks the model how relevant an article is to a user.
pub fn relevance_prompt(headline: &str, bullets: &Vec<String>, interests: &Vec<String>) -> (r: String)
    ensures
        r@ == relevance_prompt_spec(headline@, string_views(bullets@), string_views(interests@)),
{
    let iv: Vec<char> = if interests.len() == 0 {
        chars_of("general news")
    } else {
        join_strings(interests, ", ")
    };
    let mut out: Vec<char> = Vec::new();
    push_str(&mut out, "Evaluate if this article is relevant for a user interested in: ");
    push_all(&mut out, &iv);
    push_str(&mut out, "\n\nArticle: ");
    push_str(&mut out, headline);
    push_str(&mut out, "\nKey points: ");
    let j = join_strings(bullets, ", ");
    push_all(&mut out, &j);
    push_str(&mut out, "\n\nUser interests: ");
    push_all(&mut out, &iv);
    push_str(&mut out, "\nPreferred categories: all topics\n\nRate relevance (0.0-1.0) and explain why in 1-2 sentences.\nReturn ONLY valid JSON: {\"score\": 0.8, \"reasons\": [\"matches interest in AI\", \"recent topic\"]}");
    let r = string_of(out);
    assert(r@ =~= relevance_prompt_spec(headline@, string_views(bullets@), string_views(interests@)));
    r
}

} // verus!
