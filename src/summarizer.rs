//! Article summaries: acceptance of a model's summary, and the extractive
//! summary that stands in when the model gives none.
use vstd::prelude::*;
use crate::jobs::JobEvent;
use crate::llm::{LlmError, Summary, UsageMetadata};
use crate::text::{char_vec_views, chars_of, slice_of, string_of, string_views, trim, trim_range};

verus! {

/// A character that ends a sentence.
pub open spec fn is_terminator(c: char) -> bool {
    c == '.' || c == '!' || c == '?'
}

/// `s` cut at every sentence terminator, the terminators removed; an empty
/// text gives one empty piece.
pub open spec fn split_terms(s: Seq<char>) -> Seq<Seq<char>>
    decreases s.len(),
{
    if s.len() == 0 {
        seq![Seq::<char>::empty()]
    } else {
        let init = split_terms(s.drop_last());
        if is_terminator(s.last()) {
            init.push(Seq::<char>::empty())
        } else {
            init.drop_last().push(init.last().push(s.last()))
        }
    }
}

/// The trimmed pieces that are not empty, in order.
pub open spec fn keep_nonempty(ps: Seq<Seq<char>>) -> Seq<Seq<char>>
    decreases ps.len(),
{
    if ps.len() == 0 {
        Seq::empty()
    } else {
        let r = keep_nonempty(ps.drop_last());
        let t = trim(ps.last());
        if t.len() > 0 {
            r.push(t)
        } else {
            r
        }
    }
}

/// The sentences of a text: its pieces between terminators, trimmed, the
/// empty ones left out.
pub open spec fn sentences(s: Seq<char>) -> Seq<Seq<char>> {
    keep_nonempty(split_terms(s))
}

/// `s` itself when it has at most `max` characters; else its first `max - 3`
/// characters followed by `...`.
pub open spec fn truncated(s: Seq<char>, max: int) -> Seq<char> {
    if s.len() <= max {
        s
    } else {
        s.subrange(0, max - 3) + "..."@
    }
}

pub open spec fn min_int(a: int, b: int) -> int {
    if a <= b {
        a
    } else {
        b
    }
}

/// The headline of the extractive summary: the first sentence cut at 100
/// characters, or a fixed text when there is none.
pub open spec fn extractive_headline(text: Seq<char>) -> Seq<char> {
    let ss = sentences(text);
    if ss.len() > 0 {
        truncated(ss[0], 100)
    } else {
        "No content"@
    }
}

/// The bullets of the extractive summary: the five sentences after the
/// first, each cut at 200 characters.
pub open spec fn extractive_bullets(text: Seq<char>) -> Seq<Seq<char>> {
    let ss = sentences(text);
    Seq::new(
        if ss.len() > 1 {
            min_int(5, ss.len() - 1) as nat
        } else {
            0
        },
        |k: int| truncated(ss[k + 1], 200),
    )
}

/// `s` is the extractive summary of `text`.
pub open spec fn is_extractive_summary_of(s: Summary, text: Seq<char>) -> bool {
    &&& s.headline@ == extractive_headline(text)
    &&& string_views(s.bullets@) == extractive_bullets(text)
    &&& s.details matches Some(d) && d@ == text.take(min_int(1000, text.len() as int))
    &&& s.usage == UsageMetadata { prompt_tokens: 0, completion_tokens: 0, total_tokens: 0 }
}

/// A summary of the shape that the model is asked for: a headline of at most
/// 100 characters and three to seven bullets.
pub open spec fn well_formed_summary(s: Summary) -> bool {
    &&& s.headline@.len() <= 100
    &&& 3 <= s.bullets@.len() <= 7
}

fn truncate_chars(s: &Vec<char>, max_len: usize) -> (r: Vec<char>)
    requires
        max_len >= 3,
    ensures
        r@ == truncated(s@, max_len as int),
{
    if s.len() <= max_len {
        return s.clone();
    }
    let mut r: Vec<char> = Vec::new();
    let mut k: usize = 0;
    while k < max_len - 3
        invariant
            max_len >= 3,
            max_len < s@.len(),
            k <= max_len - 3,
            r@ == s@.subrange(0, k as int),
        decreases max_len - 3 - k,
    {
        r.push(s[k]);
        assert(r@ =~= s@.subrange(0, k + 1));
        k = k + 1;
    }
    r.push('.');
    r.push('.');
    r.push('.');
    proof {
        reveal_strlit("...");
        assert(r@ =~= s@.subrange(0, max_len - 3) + "..."@);
    }
    r
}

/// Cuts `s` to at most `max_len` characters, ending a cut text with `...`.
pub fn truncate(s: &str, max_len: usize) -> (r: String)
    requires
        max_len >= 3,
    ensures
        r@ == truncated(s@, max_len as int),
{
    let v = chars_of(s);
    let t = truncate_chars(&v, max_len);
    string_of(t)
}

/// The sentences of `text`, in order.
pub fn split_sentences(text: &Vec<char>) -> (r: Vec<Vec<char>>)
    ensures
        char_vec_views(r@) == sentences(text@),
{
    let mut out: Vec<Vec<char>> = Vec::new();
    let mut start: usize = 0;
    let mut i: usize = 0;
    let ghost mut done: Seq<Seq<char>> = Seq::empty();
    assert(text@.subrange(0, 0) =~= Seq::<char>::empty());
    while i < text.len()
        invariant
            start <= i <= text@.len(),
            split_terms(text@.subrange(0, i as int)) == done.push(text@.subrange(start as int, i as int)),
            char_vec_views(out@) == keep_nonempty(done),
        decreases text.len() - i,
    {
        let c = text[i];
        proof {
            assert(text@.subrange(0, i + 1).drop_last() =~= text@.subrange(0, i as int));
            assert(text@.subrange(0, i + 1).last() == c);
        }
        if c == '.' || c == '!' || c == '?' {
            let t = trim_range(text, start, i);
            proof {
                assert(done.push(text@.subrange(start as int, i as int)).drop_last() =~= done);
            }
            if t.len() > 0 {
                out.push(t);
                assert(char_vec_views(out@) =~= keep_nonempty(done).push(trim(text@.subrange(start as int, i as int))));
            }
            proof {
                done = done.push(text@.subrange(start as int, i as int));
            }
            start = i + 1;
            assert(text@.subrange(start as int, start as int) =~= Seq::<char>::empty());
        } else {
            proof {
                let init = split_terms(text@.subrange(0, i as int));
                assert(init.drop_last() =~= done);
                assert(text@.subrange(start as int, i + 1) =~= text@.subrange(start as int, i as int).push(c));
                assert(init.drop_last().push(init.last().push(c)) =~= done.push(text@.subrange(start as int, i + 1)));
            }
        }
        i = i + 1;
    }
    assert(text@.subrange(0, text@.len() as int) =~= text@);
    let t = trim_range(text, start, i);
    proof {
        assert(done.push(text@.subrange(start as int, i as int)).drop_last() =~= done);
    }
    if t.len() > 0 {
        out.push(t);
        assert(char_vec_views(out@) =~= keep_nonempty(done).push(trim(text@.subrange(start as int, i as int))));
    }
    out
}

/// The extractive summary of `text`: its first sentence as headline, the
/// five sentences after it as bullets, and its first 1,000 characters as
/// details.
pub fn extractive_summary(text: &str) -> (r: Summary)
    ensures
        is_extractive_summary_of(r, text@),
        r.headline@.len() <= 100,
        r.bullets@.len() <= 5,
{
    let chars = chars_of(text);
    let ss = split_sentences(&chars);
    let headline = if ss.len() > 0 {
        let h = truncate_chars(&ss[0], 100);
        proof {
            reveal_strlit("...");
        }
        string_of(h)
    } else {
        let h = String::from_str("No content");
        proof {
            reveal_strlit("No content");
        }
        h
    };
    let nb: usize = if ss.len() > 1 {
        if ss.len() - 1 < 5 {
            ss.len() - 1
        } else {
            5
        }
    } else {
        0
    };
    let ghost want = extractive_bullets(text@);
    let mut bullets: Vec<String> = Vec::new();
    let mut k: usize = 0;
    while k < nb
        invariant
            want == extractive_bullets(text@),
            nb == want.len(),
            nb < ss@.len() || nb == 0,
            char_vec_views(ss@) == sentences(text@),
            k <= nb,
            string_views(bullets@) == want.take(k as int),
        decreases nb - k,
    {
        let b = truncate_chars(&ss[k + 1], 200);
        let bs = string_of(b);
        proof {
            assert(char_vec_views(ss@)[k + 1] == ss@[k + 1]@);
            assert(bs@ == want[k as int]);
        }
        let ghost prev = bullets@;
        bullets.push(bs);
        proof {
            assert(string_views(bullets@) =~= string_views(prev).push(bs@));
            assert(want.take(k + 1) =~= want.take(k as int).push(want[k as int]));
        }
        k = k + 1;
    }
    assert(want.take(nb as int) =~= want);
    let dn: usize = if chars.len() < 1000 {
        chars.len()
    } else {
        1000
    };
    let dv = slice_of(&chars, 0, dn);
    let d = string_of(dv);
    assert(chars@.subrange(0, dn as int) =~= text@.take(dn as int));
    Summary { headline, bullets, details: Some(d), usage: UsageMetadata::zero() }
}

/// A model's summary when it has the requested shape, else an error.
pub fn check_summary(s: Summary) -> (r: Result<Summary, LlmError>)
    ensures
        well_formed_summary(s) ==> r == Ok::<Summary, LlmError>(s),
        !well_formed_summary(s) ==> r == Err::<Summary, LlmError>(LlmError::Parse),
{
    let hl = chars_of(s.headline.as_str());
    if hl.len() <= 100 && 3 <= s.bullets.len() && s.bullets.len() <= 7 {
        Ok(s)
    } else {
        Err(LlmError::Parse)
    }
}

/// The summary of an article from what the model returned for it: the
/// model's summary when it has the requested shape, else the extractive
/// summary of the article's text.
pub fn summarize_article(outcome: Result<Summary, LlmError>, article_text: &str) -> (r: Summary)
    ensures
        r.headline@.len() <= 100,
        match outcome {
            Ok(s) => if well_formed_summary(s) {
                r == s
            } else {
                is_extractive_summary_of(r, article_text@)
            },
            Err(_) => is_extractive_summary_of(r, article_text@),
        },
{
    match outcome {
        Ok(s) => match check_summary(s) {
            Ok(t) => t,
            Err(_) => extractive_summary(article_text),
        },
        Err(_) => extractive_summary(article_text),
    }
}

/// How a summarizing job ends: completed when the model gave a summary of
/// the requested shape, failed otherwise (the article still gets the
/// extractive summary).
pub fn summary_job_event(outcome: &Result<Summary, LlmError>) -> (r: JobEvent)
    ensures
        (*outcome matches Ok(s) && well_formed_summary(s)) ==> r == JobEvent::Complete,
        !(*outcome matches Ok(s) && well_formed_summary(s)) ==> r == JobEvent::Fail,
{
    match outcome {
        Ok(s) => {
            let hl = chars_of(s.headline.as_str());
            if hl.len() <= 100 && 3 <= s.bullets.len() && s.bullets.len() <= 7 {
                JobEvent::Complete
            } else {
                JobEvent::Fail
            }
        },
        Err(_) => JobEvent::Fail,
    }
}

} // verus!
