//! Per-user personalization decisions: relevance defaults, the length of a
//! personalized summary, and which records are kept. Relevance is held in
//! thousandths (0 to 1000).
use vstd::prelude::*;
use crate::llm::{Summary, UsageMetadata};
use crate::text::{join_strings, join_with, push_all, push_str, string_of, string_views};

verus! {

/// The least relevance, in thousandths, for which a personalized summary is kept.
pub const RELEVANCE_THRESHOLD: u32 = 300;

/// The relevance, in thousandths, assumed when the model's rating cannot be read.
pub const DEFAULT_RELEVANCE: u32 = 500;

/// The words per minute of a user who has set none.
pub const DEFAULT_READING_SPEED: u32 = 250;

/// How long a personalized summary is.
#[derive(Debug, Clone, Copy, PartialEq, Eq, Structural)]
pub enum SummaryLength {
    Short,
    Medium,
    Long,
}

impl SummaryLength {
    pub open spec fn name_spec(self) -> Seq<char> {
        match self {
            SummaryLength::Short => "short"@,
            SummaryLength::Medium => "medium"@,
            SummaryLength::Long => "long"@,
        }
    }

    /// The name under which the length is stored.
    pub fn as_str(&self) -> (r: &'static str)
        ensures
            r@ == self.name_spec(),
    {
        match self {
            SummaryLength::Short => "short",
            SummaryLength::Medium => "medium",
            SummaryLength::Long => "long",
        }
    }
}

/// What personalization needs to know of a user.
#[derive(Debug, Clone)]
pub struct UserProfile {
    pub id: i64,
    pub language: String,
    pub complexity_level: String,
    /// Words per minute.
    pub reading_speed: u32,
    pub interests: Vec<String>,
}

impl UserProfile {
    /// The profile of a user who has set no preferences: English, medium
    /// complexity, 250 words per minute, no interests.
    pub fn with_defaults(id: i64) -> (r: UserProfile)
        ensures
            r.id == id,
            r.language@ == "en"@,
            r.complexity_level@ == "medium"@,
            r.reading_speed == DEFAULT_READING_SPEED,
            r.interests@.len() == 0,
    {
        UserProfile {
            id,
            language: String::from_str("en"),
            complexity_level: String::from_str("medium"),
            reading_speed: DEFAULT_READING_SPEED,
            interests: Vec::new(),
        }
    }
}

/// The model's rating of an article for a user.
#[derive(Debug, Clone)]
pub struct RelevanceEvaluation {
    /// Thousandths, from 0 to 1000.
    pub score_milli: u32,
    pub reasons: Vec<String>,
}

/// A summary rewritten for one user.
#[derive(Debug, Clone)]
pub struct PersonalizedSummary {
    pub headline: String,
    pub bullets: Vec<String>,
    pub details: Option<String>,
    pub length: SummaryLength,
    pub usage: UsageMetadata,
}

/// The record kept of a personalized summary.
#[derive(Debug, Clone)]
pub struct UserArticleSummaryRow {
    pub user_id: i64,
    pub article_id: i64,
    pub relevance_milli: u32,
    pub relevance_reasons: Vec<String>,
    pub is_relevant: bool,
    pub personalized_headline: String,
    pub personalized_bullets: Vec<String>,
    pub personalized_details: Option<String>,
    pub language: String,
    pub complexity_level: String,
    pub summary_length: SummaryLength,
    pub llm_model: String,
    pub usage: UsageMetadata,
}

/// The rating to use: the model's, capped at 1000, or the neutral 500 with
/// the single reason `Unable to evaluate` when it could not be read.
pub fn relevance_or_default(parsed: Option<RelevanceEvaluation>) -> (r: RelevanceEvaluation)
    ensures
        match parsed {
            Some(e) => r.score_milli == (if e.score_milli > 1000 { 1000 } else { e.score_milli })
                && r.reasons@ == e.reasons@,
            None => r.score_milli == DEFAULT_RELEVANCE && r.reasons@.len() == 1
                && r.reasons@[0]@ == "Unable to evaluate"@,
        },
{
    match parsed {
        Some(e) => {
            let score = if e.score_milli > 1000 {
                1000
            } else {
                e.score_milli
            };
            RelevanceEvaluation { score_milli: score, reasons: e.reasons }
        },
        None => {
            let mut reasons: Vec<String> = Vec::new();
            reasons.push(String::from_str("Unable to evaluate"));
            RelevanceEvaluation { score_milli: DEFAULT_RELEVANCE, reasons }
        },
    }
}

pub open spec fn target_length_spec(score_milli: u32) -> (usize, SummaryLength) {
    if score_milli > 800 {
        (5, SummaryLength::Long)
    } else if score_milli > 500 {
        (3, SummaryLength::Medium)
    } else {
        (2, SummaryLength::Short)
    }
}

/// The number of key points, and the length, asked of a personalized
/// summary: five (long) above 0.8, three (medium) above 0.5, else two (short).
pub fn target_length(score_milli: u32) -> (r: (usize, SummaryLength))
    ensures
        r == target_length_spec(score_milli),
{
    if score_milli > 800 {
        (5, SummaryLength::Long)
    } else if score_milli > 500 {
        (3, SummaryLength::Medium)
    } else {
        (2, SummaryLength::Short)
    }
}

/// The personalized summary to keep: the model's, with the length asked
/// for, or, when its answer could not be read, the generic summary carried
/// forward as a medium one.
pub fn personalized_or_generic(
    parsed: Option<(String, Vec<String>, Option<String>)>,
    generic: Summary,
    score_milli: u32,
    usage: UsageMetadata,
) -> (r: PersonalizedSummary)
    ensures
        r.usage == usage,
        match parsed {
            Some((h, b, d)) => r.headline == h && r.bullets == b && r.details == d
                && r.length == target_length_spec(score_milli).1,
            None => r.headline == generic.headline && r.bullets == generic.bullets
                && r.details == generic.details && r.length == SummaryLength::Medium,
        },
{
    match parsed {
        Some((h, b, d)) => {
            let (_, length) = target_length(score_milli);
            PersonalizedSummary { headline: h, bullets: b, details: d, length, usage }
        },
        None => PersonalizedSummary {
            headline: generic.headline,
            bullets: generic.bullets,
            details: generic.details,
            length: SummaryLength::Medium,
            usage,
        },
    }
}

/// The record to store for a user and an article: none when the relevance
/// is under 0.3; else one marked relevant, in the user's language and
/// complexity.
pub fn user_summary_record(
    profile: &UserProfile,
    article_id: i64,
    evaluation: RelevanceEvaluation,
    summary: PersonalizedSummary,
    llm_model: String,
) -> (r: Option<UserArticleSummaryRow>)
    ensures
        r is Some <==> evaluation.score_milli >= RELEVANCE_THRESHOLD,
        r matches Some(row) ==> {
            &&& row.user_id == profile.id
            &&& row.article_id == article_id
            &&& row.relevance_milli == evaluation.score_milli
            &&& row.relevance_milli >= RELEVANCE_THRESHOLD
            &&& row.is_relevant
            &&& row.language@ == profile.language@
            &&& row.complexity_level@ == profile.complexity_level@
            &&& row.personalized_headline == summary.headline
            &&& row.personalized_bullets == summary.bullets
            &&& row.personalized_details == summary.details
            &&& row.summary_length == summary.length
            &&& row.llm_model == llm_model
            &&& row.relevance_reasons == evaluation.reasons
            &&& row.usage == summary.usage
        },
{
    if evaluation.score_milli < RELEVANCE_THRESHOLD {
        return None;
    }
    Some(
        UserArticleSummaryRow {
            user_id: profile.id,
            article_id,
            relevance_milli: evaluation.score_milli,
            relevance_reasons: evaluation.reasons,
            is_relevant: true,
            personalized_headline: summary.headline,
            personalized_bullets: summary.bullets,
            personalized_details: summary.details,
            language: profile.language.clone(),
            complexity_level: profile.complexity_level.clone(),
            summary_length: summary.length,
            llm_model,
            usage: summary.usage,
        },
    )
}

/// The text that a user's first interest vector is computed from: the
/// interest tokens joined with commas; none without tokens.
pub fn interests_text(interests: &Vec<String>) -> (r: Option<String>)
    ensures
        interests@.len() == 0 ==> r is None,
        interests@.len() > 0 ==> (r matches Some(t) && t@ == join_with(string_views(interests@), ", "@)),
{
    if interests.len() == 0 {
        return None;
    }
    Some(string_of(join_strings(interests, ", ")))
}

/// The number of key points asked for, as written in a prompt.
pub open spec fn points_text(length: SummaryLength) -> Seq<char> {
    match length {
        SummaryLength::Long => "5"@,
        SummaryLength::Medium => "3"@,
        SummaryLength::Short => "2"@,
    }
}

pub open spec fn personalize_prompt_spec(
    lang: Seq<char>,
    complexity: Seq<char>,
    interests: Seq<Seq<char>>,
    headline: Seq<char>,
    bullets: Seq<Seq<char>>,
    score_milli: u32,
) -> Seq<char> {
    let focus = if interests.len() == 0 {
        Seq::<char>::empty()
    } else {
        "- Focus on aspects relevant to: "@ + join_with(interests, ", "@) + "\n"@
    };
    "Adapt this article summary for a "@ + lang + " speaker with "@ + complexity
        + " complexity level.\n\nHeadline: "@ + headline + "\nKey points: "@
        + join_with(bullets, "\n- "@) + "\n\nInstructions:\n- Language: "@ + lang
        + " (respond entirely in this language)\n- Complexity: "@ + complexity
        + " (adjust vocabulary and detail accordingly)\n- Target length: "@
        + points_text(target_length_spec(score_milli).1) + " key points\n"@ + focus
        + "Return ONLY valid JSON:\n{\n  \"headline\": \"adapted headline in "@ + lang
        + "\",\n  \"bullets\": [\"point 1 in "@ + lang
        + "\", \"point 2\", \"...\"],\n  \"details\": \"optional additional context\"\n}"@
}

/// The prompt that asks the model for a summary adapted to a user: their
/// language and complexity, and as many key points as the relevance calls for.
pub fn personalize_prompt(profile: &UserProfile, headline: &str, bullets: &Vec<String>, score_milli: u32) -> (r: String)
    ensures
        r@ == personalize_prompt_spec(
            profile.language@,
            profile.complexity_level@,
            string_views(profile.interests@),
            headline@,
            string_views(bullets@),
            score_milli,
        ),
{
    let lang = profile.language.as_str();
    let complexity = profile.complexity_level.as_str();
    let (_, length) = target_length(score_milli);
    let points: &str = match length {
        SummaryLength::Long => "5",
        SummaryLength::Medium => "3",
        SummaryLength::Short => "2",
    };
    let mut out: Vec<char> = Vec::new();
    push_str(&mut out, "Adapt this article summary for a ");
    push_str(&mut out, lang);
    push_str(&mut out, " speaker with ");
    push_str(&mut out, complexity);
    push_str(&mut out, " complexity level.\n\nHeadline: ");
    push_str(&mut out, headline);
    push_str(&mut out, "\nKey points: ");
    let jb = join_strings(bullets, "\n- ");
    push_all(&mut out, &jb);
    push_str(&mut out, "\n\nInstructions:\n- Language: ");
    push_str(&mut out, lang);
    push_str(&mut out, " (respond entirely in this language)\n- Complexity: ");
    push_str(&mut out, complexity);
    push_str(&mut out, " (adjust vocabulary and detail accordingly)\n- Target length: ");
    push_str(&mut out, points);
    push_str(&mut out, " key points\n");
    if profile.interests.len() > 0 {
        push_str(&mut out, "- Focus on aspects relevant to: ");
        let ji = join_strings(&profile.interests, ", ");
        push_all(&mut out, &ji);
        push_str(&mut out, "\n");
    }
    push_str(&mut out, "Return ONLY valid JSON:\n{\n  \"headline\": \"adapted headline in ");
    push_str(&mut out, lang);
    push_str(&mut out, "\",\n  \"bullets\": [\"point 1 in ");
    push_str(&mut out, lang);
    push_str(&mut out, "\", \"point 2\", \"...\"],\n  \"details\": \"optional additional context\"\n}");
    let r = string_of(out);
    assert(r@ =~= personalize_prompt_spec(
        profile.language@,
        profile.complexity_level@,
        string_views(profile.interests@),
        headline@,
        string_views(bullets@),
        score_milli,
    ));
    r
}

} // verus!
