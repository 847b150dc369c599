//! Data exchanged with a language-model backend, and the tolerant reading of
//! the JSON objects that such a backend returns inside free text.
use vstd::prelude::*;
use crate::text::{chars_of, find, find_exec, rfind, rfind_exec, slice_of, string_of, trim, trim_range};

verus! {

/// Token counts that a backend reports for one call.
#[derive(Debug, Clone, Copy, PartialEq, Eq, Structural)]
pub struct UsageMetadata {
    pub prompt_tokens: usize,
    pub completion_tokens: usize,
    pub total_tokens: usize,
}

impl UsageMetadata {
    /// A record of no tokens at all.
    pub fn zero() -> (r: UsageMetadata)
        ensures
            r.prompt_tokens == 0,
            r.completion_tokens == 0,
            r.total_tokens == 0,
    {
        UsageMetadata { prompt_tokens: 0, completion_tokens: 0, total_tokens: 0 }
    }
}

/// Why a call to a language-model backend gave no usable answer.
#[derive(Debug, Clone, Copy, PartialEq, Eq, Structural)]
pub enum LlmError {
    /// The call ran past its time limit.
    Timeout,
    /// The backend answered with a status outside 2xx.
    Http { status: u16 },
    /// The answer could not be read as the expected shape.
    Parse,
}

/// What a backend returned for one completion.
#[derive(Debug, Clone)]
pub struct LlmResponse {
    pub content: String,
    pub usage: UsageMetadata,
    pub model: String,
}

/// A hierarchical article summary: a headline, key points and optional details.
#[derive(Debug, Clone)]
pub struct Summary {
    pub headline: String,
    pub bullets: Vec<String>,
    pub details: Option<String>,
    pub usage: UsageMetadata,
}

/// The text between `open` and the next fence that follows it, trimmed,
/// when `open` occurs in `s` and a closing fence follows.
pub open spec fn fenced(s: Seq<char>, open: Seq<char>) -> Option<Seq<char>> {
    match find(s, open) {
        Some(a) => {
            let rest = s.subrange(a + open.len(), s.len() as int);
            match find(rest, "```"@) {
                Some(b) => Some(trim(rest.subrange(0, b))),
                None => None,
            }
        },
        None => None,
    }
}

/// The text from the first `{` to the last `}`, both included, when the
/// first comes before the last.
pub open spec fn braced(s: Seq<char>) -> Option<Seq<char>> {
    match (find(s, seq!['{']), rfind(s, '}')) {
        (Some(a), Some(b)) => if a <= b {
            Some(s.subrange(a, b + 1))
        } else {
            None
        },
        _ => None,
    }
}

/// The JSON text that a model's answer carries: first a block fenced as
/// ```` ```json ````, then any fenced block, then the outermost braces.
pub open spec fn json_in(s: Seq<char>) -> Option<Seq<char>> {
    match fenced(s, "```json"@) {
        Some(t) => Some(t),
        None => match fenced(s, "```"@) {
            Some(t) => Some(t),
            None => braced(s),
        },
    }
}

pub open spec fn opt_view(o: Option<String>) -> Option<Seq<char>> {
    match o {
        Some(s) => Some(s@),
        None => None,
    }
}

fn fenced_exec(s: &Vec<char>, open: &Vec<char>) -> (r: Option<Vec<char>>)
    ensures
        match r {
            Some(v) => fenced(s@, open@) == Some(v@),
            None => fenced(s@, open@) is None,
        },
{
    let fence = chars_of("```");
    match find_exec(s, open) {
        Some(a) => {
            if open.len() > s.len() - a {
                return None;
            }
            let start = a + open.len();
            let rest = slice_of(s, start, s.len());
            match find_exec(&rest, &fence) {
                Some(b) => {
                    let t = trim_range(&rest, 0, b);
                    Some(t)
                },
                None => None,
            }
        },
        None => None,
    }
}

/// Extracts the JSON object from a model's answer, which may wrap it in a
/// Markdown fence or surround it with prose.
pub fn extract_json_from_text(text: &str) -> (r: Option<String>)
    ensures
        opt_view(r) == json_in(text@),
{
    let s = chars_of(text);
    let json_open = chars_of("```json");
    if let Some(t) = fenced_exec(&s, &json_open) {
        return Some(string_of(t));
    }
    let plain_open = chars_of("```");
    if let Some(t) = fenced_exec(&s, &plain_open) {
        return Some(string_of(t));
    }
    let lbrace = chars_of("{");
    proof {
        reveal_strlit("{");
        assert(lbrace@ =~= seq!['{']);
    }
    let n = s.len();
    match (find_exec(&s, &lbrace), rfind_exec(&s, '}')) {
        (Some(a), Some(b)) => {
            if a <= b {
                assert(b < n);
                let t = slice_of(&s, a, b + 1);
                Some(string_of(t))
            } else {
                None
            }
        },
        _ => None,
    }
}

} // verus!
