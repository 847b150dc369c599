//! Decisions of the session streamer: the language of a session, its
//! localized messages, the clipping of model input, and the reading of a
//! refined news card from a model's answer.
use vstd::prelude::*;
use crate::text::{
    chars_of, char_vec_views, find, find_exec, join_strings, join_with, occurs_at, occurs_at_exec, push_all, push_str,
    opt_int, same_text, slice_of, string_of, string_views, trim, trim_range,
};

verus! {

/// The primary language tag of a request, taken from an `Accept-Language`
/// style header.
#[derive(Debug, Clone)]
pub struct AcceptLanguage(pub String);

/// The text of an article that the chat may draw on.
#[derive(Debug, Clone)]
pub struct ArticleContext {
    pub title: String,
    pub summary: String,
    pub content: Option<String>,
}

/// What a news card shows.
#[derive(Debug, Clone)]
pub struct RefinedCard {
    pub title: String,
    pub summary: String,
    pub lang: String,
}

/// `s` up to the first `c`, or all of `s` when it holds none.
pub open spec fn before_char(s: Seq<char>, c: char) -> Seq<char> {
    match find(s, seq![c]) {
        Some(i) => s.take(i),
        None => s,
    }
}

/// The primary tag of the first language that a header names; `en`
/// without a header.
pub open spec fn primary_language_spec(header: Option<Seq<char>>) -> Seq<char> {
    match header {
        Some(h) => before_char(before_char(h, ','), '-'),
        None => "en"@,
    }
}

fn before_char_exec(s: &Vec<char>, c: char) -> (r: Vec<char>)
    ensures
        r@ == before_char(s@, c),
{
    let mut pat: Vec<char> = Vec::new();
    pat.push(c);
    assert(pat@ =~= seq![c]);
    match find_exec(s, &pat) {
        Some(i) => slice_of(s, 0, i),
        None => s.clone(),
    }
}

impl AcceptLanguage {
    /// The language of a request from its `Accept-Language` header, if any:
    /// the first listed language, without its region (`fr` of `fr-FR,en`).
    pub fn from_header(header: Option<&str>) -> (r: AcceptLanguage)
        ensures
            r.0@ == primary_language_spec(
                match header {
                    Some(h) => Some(h@),
                    None => None,
                },
            ),
    {
        match header {
            Some(h) => {
                let s = chars_of(h);
                let first = before_char_exec(&s, ',');
                let tag = before_char_exec(&first, '-');
                AcceptLanguage(string_of(tag))
            },
            None => AcceptLanguage(String::from_str("en")),
        }
    }
}

/// The language of a session: the user's own when set, else the one that
/// the request names.
pub fn session_language(profile_language: Option<&str>, header: &AcceptLanguage) -> (r: String)
    ensures
        match profile_language {
            Some(p) => if p@.len() > 0 {
                r@ == p@
            } else {
                r@ == header.0@
            },
            None => r@ == header.0@,
        },
{
    match profile_language {
        Some(p) => {
            let v = chars_of(p);
            if v.len() > 0 {
                String::from_str(p)
            } else {
                header.0.clone()
            }
        },
        None => header.0.clone(),
    }
}

/// The English name of a language tag, as the model is told to write in it.
pub open spec fn language_name_spec(lang: Seq<char>) -> Seq<char> {
    if lang == "fr"@ {
        "French"@
    } else if lang == "es"@ {
        "Spanish"@
    } else if lang == "de"@ {
        "German"@
    } else if lang == "it"@ {
        "Italian"@
    } else {
        "English"@
    }
}

pub fn language_name(lang: &str) -> (r: &'static str)
    ensures
        r@ == language_name_spec(lang@),
{
    if same_text(lang, "fr") {
        "French"
    } else if same_text(lang, "es") {
        "Spanish"
    } else if same_text(lang, "de") {
        "German"
    } else if same_text(lang, "it") {
        "Italian"
    } else {
        "English"
    }
}

pub open spec fn greeting_spec(lang: Seq<char>) -> Seq<char> {
    if lang == "fr"@ {
        "👋 Bonjour ! Je prépare votre revue de presse personnalisée. Je vous enverrai une notification quand elle sera prête..."@
    } else if lang == "es"@ {
        "👋 ¡Hola! Estoy preparando su resumen de prensa personalizado. Le enviaré una notificación cuando esté listo..."@
    } else if lang == "de"@ {
        "👋 Hallo! Ich bereite Ihren persönlichen Pressespiegel vor. Ich sende Ihnen eine Benachrichtigung, wenn er fertig ist..."@
    } else if lang == "it"@ {
        "👋 Ciao! Sto preparando la tua rassegna stampa personalizzata. Ti invierò una notifica quando sarà pronta..."@
    } else {
        "👋 Hello! I'm preparing your personalized press review. I'll send you a notification when it's ready..."@
    }
}

/// The greeting that opens a new session, in its language.
pub fn greeting(lang: &str) -> (r: &'static str)
    ensures
        r@ == greeting_spec(lang@),
{
    if same_text(lang, "fr") {
        "👋 Bonjour ! Je prépare votre revue de presse personnalisée. Je vous enverrai une notification quand elle sera prête..."
    } else if same_text(lang, "es") {
        "👋 ¡Hola! Estoy preparando su resumen de prensa personalizado. Le enviaré una notificación cuando esté listo..."
    } else if same_text(lang, "de") {
        "👋 Hallo! Ich bereite Ihren persönlichen Pressespiegel vor. Ich sende Ihnen eine Benachrichtigung, wenn er fertig ist..."
    } else if same_text(lang, "it") {
        "👋 Ciao! Sto preparando la tua rassegna stampa personalizzata. Ti invierò una notifica quando sarà pronta..."
    } else {
        "👋 Hello! I'm preparing your personalized press review. I'll send you a notification when it's ready..."
    }
}

pub open spec fn closing_spec(lang: Seq<char>) -> Seq<char> {
    if lang == "fr"@ {
        "Voilà pour l'essentiel de l'actualité. Souhaitez-vous approfondir un sujet ?"@
    } else if lang == "es"@ {
        "Eso es todo por ahora. ¿Desea profundizar en algún tema?"@
    } else if lang == "de"@ {
        "Das war das Wichtigste. Möchten Sie ein Thema vertiefen?"@
    } else if lang == "it"@ {
        "Questo è tutto per ora. Vuoi approfondire un argomento?"@
    } else {
        "That's the main news. Would you like to explore any topic further?"@
    }
}

/// The message that closes the stream of cards, in the session's language.
pub fn closing_message(lang: &str) -> (r: &'static str)
    ensures
        r@ == closing_spec(lang@),
{
    if same_text(lang, "fr") {
        "Voilà pour l'essentiel de l'actualité. Souhaitez-vous approfondir un sujet ?"
    } else if same_text(lang, "es") {
        "Eso es todo por ahora. ¿Desea profundizar en algún tema?"
    } else if same_text(lang, "de") {
        "Das war das Wichtigste. Möchten Sie ein Thema vertiefen?"
    } else if same_text(lang, "it") {
        "Questo è tutto per ora. Vuoi approfondire un argomento?"
    } else {
        "That's the main news. Would you like to explore any topic further?"
    }
}

/// `s` when it has at most `max` characters, else its first `max`
/// characters followed by `...`.
pub open spec fn clipped(s: Seq<char>, max: int) -> Seq<char> {
    if s.len() > max {
        s.take(max) + "..."@
    } else {
        s
    }
}

/// Clips text handed to the model: 2,000 characters for a card to refine,
/// 500 for an article snippet in the chat.
pub fn clip(s: &str, max: usize) -> (r: String)
    ensures
        r@ == clipped(s@, max as int),
{
    let v = chars_of(s);
    if v.len() > max {
        let mut t = slice_of(&v, 0, max);
        t.push('.');
        t.push('.');
        t.push('.');
        proof {
            reveal_strlit("...");
            assert(t@ =~= s@.take(max as int) + "..."@);
        }
        string_of(t)
    } else {
        String::from_str(s)
    }
}

/// The text of a card before refinement: the stored details when there are
/// some, else the key points joined with spaces.
pub fn raw_card_summary(details: Option<&str>, bullets: &Vec<String>) -> (r: String)
    ensures
        match details {
            Some(d) => r@ == d@,
            None => r@ == join_with(string_views(bullets@), " "@),
        },
{
    match details {
        Some(d) => String::from_str(d),
        None => string_of(join_strings(bullets, " ")),
    }
}

/// The theme and source name of a card: the feed's title, or `Actualité`
/// and `Unknown` when the feed has none.
pub fn card_labels(feed_title: Option<&str>) -> (r: (String, String))
    ensures
        match feed_title {
            Some(t) => r.0@ == t@ && r.1@ == t@,
            None => r.0@ == "Actualité"@ && r.1@ == "Unknown"@,
        },
{
    match feed_title {
        Some(t) => (String::from_str(t), String::from_str(t)),
        None => (String::from_str("Actualité"), String::from_str("Unknown")),
    }
}

/// The first position of the chat history that the prompt keeps: the last
/// ten messages.
pub fn history_start(n_messages: usize) -> (r: usize)
    ensures
        r == if n_messages > 10 { n_messages - 10 } else { 0 },
{
    if n_messages > 10 {
        n_messages - 10
    } else {
        0
    }
}

/// The first marker of the list that occurs in `s`, with its position.
pub open spec fn first_marker(s: Seq<char>, markers: Seq<Seq<char>>) -> Option<(int, int)>
    decreases markers.len(),
{
    if markers.len() == 0 {
        None
    } else {
        match find(s, markers[0]) {
            Some(i) => Some((i, markers[0].len() as int)),
            None => first_marker(s, markers.drop_first()),
        }
    }
}

pub open spec fn title_markers() -> Seq<Seq<char>> {
    seq!["TITLE:"@, "TITRE:"@, "Title:"@, "Titre:"@]
}

pub open spec fn summary_markers() -> Seq<Seq<char>> {
    seq!["SUMMARY:"@, "RESUME:"@, "RÉSUMÉ:"@, "Summary:"@, "Resume:"@, "Résumé:"@]
}

/// The last position at or before `i` where `p` occurs in `s`.
pub open spec fn rfind_str_from(s: Seq<char>, p: Seq<char>, i: int) -> Option<int>
    decreases i + 1,
{
    if i < 0 {
        None
    } else if occurs_at(s, p, i) {
        Some(i)
    } else {
        rfind_str_from(s, p, i - 1)
    }
}

pub open spec fn rfind_str(s: Seq<char>, p: Seq<char>) -> Option<int> {
    rfind_str_from(s, p, s.len() - p.len())
}

/// Where a trailing note that the model added starts: the last `(Note:`,
/// else the last `(Nota:`, else the last line that starts with `Note:`;
/// only a note that starts past the tenth character counts.
pub open spec fn note_cut(s: Seq<char>) -> Option<int> {
    let found = match rfind_str(s, "(Note:"@) {
        Some(i) => Some(i),
        None => match rfind_str(s, "(Nota:"@) {
            Some(i) => Some(i),
            None => rfind_str(s, "\nNote:"@),
        },
    };
    match found {
        Some(i) => if i > 10 {
            Some(i)
        } else {
            None
        },
        None => None,
    }
}

/// The summary without a trailing note, trimmed.
pub open spec fn without_note(s: Seq<char>) -> Seq<char> {
    match note_cut(s) {
        Some(i) => trim(s.take(i)),
        None => trim(s),
    }
}

/// The title and summary that a refinement answer carries: both markers
/// present, the title's first, and neither part empty.
pub open spec fn parse_refinement_spec(answer: Seq<char>) -> Option<(Seq<char>, Seq<char>)> {
    let c = trim(answer);
    match (first_marker(c, title_markers()), first_marker(c, summary_markers())) {
        (Some((ti, tl)), Some((si, sl))) => if ti < si && ti + tl <= si {
            let title = trim(c.subrange(ti + tl, si));
            let summary = without_note(trim(c.subrange(si + sl, c.len() as int)));
            if title.len() > 0 && summary.len() > 0 {
                Some((title, summary))
            } else {
                None
            }
        } else {
            None
        },
        _ => None,
    }
}

fn rfind_str_exec(s: &Vec<char>, p: &Vec<char>) -> (r: Option<usize>)
    ensures
        opt_int(r) == rfind_str(s@, p@),
        r matches Some(i) ==> i + p@.len() <= s@.len(),
{
    if p.len() > s.len() {
        return None;
    }
    let mut i: usize = s.len() - p.len();
    loop
        invariant
            i + p@.len() <= s@.len(),
            rfind_str(s@, p@) == rfind_str_from(s@, p@, i as int),
        decreases i,
    {
        if occurs_at_exec(s, p, i) {
            return Some(i);
        }
        if i == 0 {
            assert(rfind_str_from(s@, p@, -1) is None);
            return None;
        }
        i = i - 1;
    }
}

fn first_marker_exec(s: &Vec<char>, markers: &Vec<Vec<char>>) -> (r: Option<(usize, usize)>)
    ensures
        match r {
            Some((i, l)) => first_marker(s@, char_vec_views(markers@)) == Some((i as int, l as int))
                && i + l <= s@.len(),
            None => first_marker(s@, char_vec_views(markers@)) is None,
        },
{
    let mut k: usize = 0;
    assert(char_vec_views(markers@).skip(0) =~= char_vec_views(markers@));
    while k < markers.len()
        invariant
            k <= markers@.len(),
            first_marker(s@, char_vec_views(markers@)) == first_marker(s@, char_vec_views(markers@).skip(k as int)),
        decreases markers.len() - k,
    {
        let ghost rest = char_vec_views(markers@).skip(k as int);
        assert(rest[0] == markers@[k as int]@);
        assert(rest.drop_first() =~= char_vec_views(markers@).skip(k + 1));
        if let Some(i) = find_exec(s, &markers[k]) {
            return Some((i, markers[k].len()));
        }
        k = k + 1;
    }
    assert(char_vec_views(markers@).skip(k as int) =~= Seq::<Seq<char>>::empty());
    None
}

fn marker_list_title() -> (r: Vec<Vec<char>>)
    ensures
        char_vec_views(r@) == title_markers(),
{
    let r = vec![chars_of("TITLE:"), chars_of("TITRE:"), chars_of("Title:"), chars_of("Titre:")];
    assert(char_vec_views(r@) =~= title_markers());
    r
}

fn marker_list_summary() -> (r: Vec<Vec<char>>)
    ensures
        char_vec_views(r@) == summary_markers(),
{
    let r = vec![
        chars_of("SUMMARY:"),
        chars_of("RESUME:"),
        chars_of("RÉSUMÉ:"),
        chars_of("Summary:"),
        chars_of("Resume:"),
        chars_of("Résumé:"),
    ];
    assert(char_vec_views(r@) =~= summary_markers());
    r
}

fn without_note_exec(s: &Vec<char>) -> (r: Vec<char>)
    ensures
        r@ == without_note(s@),
{
    let a = rfind_str_exec(s, &chars_of("(Note:"));
    let found = match a {
        Some(i) => Some(i),
        None => match rfind_str_exec(s, &chars_of("(Nota:")) {
            Some(i) => Some(i),
            None => rfind_str_exec(s, &chars_of("\nNote:")),
        },
    };
    match found {
        Some(i) => {
            if i > 10 {
                assert(s@.subrange(0, i as int) =~= s@.take(i as int));
                trim_range(s, 0, i)
            } else {
                assert(s@.subrange(0, s@.len() as int) =~= s@);
                trim_range(s, 0, s.len())
            }
        },
        None => {
            assert(s@.subrange(0, s@.len() as int) =~= s@);
            trim_range(s, 0, s.len())
        },
    }
}

/// Reads the title and summary from a model's refinement answer, when it
/// holds both markers in order and two non-empty parts.
pub fn parse_refinement(answer: &str) -> (r: Option<(String, String)>)
    ensures
        match r {
            Some((t, s)) => parse_refinement_spec(answer@) == Some((t@, s@)),
            None => parse_refinement_spec(answer@) is None,
        },
{
    let a = chars_of(answer);
    let c = trim_range(&a, 0, a.len());
    assert(a@.subrange(0, a@.len() as int) =~= answer@);
    let tm = first_marker_exec(&c, &marker_list_title());
    let sm = first_marker_exec(&c, &marker_list_summary());
    match (tm, sm) {
        (Some((ti, tl)), Some((si, sl))) => {
            if ti < si && tl <= si - ti {
                let title = trim_range(&c, ti + tl, si);
                let rest = trim_range(&c, si + sl, c.len());
                let summary = without_note_exec(&rest);
                if title.len() > 0 && summary.len() > 0 {
                    Some((string_of(title), string_of(summary)))
                } else {
                    None
                }
            } else {
                None
            }
        },
        _ => None,
    }
}

/// The card for an article after refinement: the refined title and summary
/// in the session's language when the answer reads well, else the stored
/// personalized headline and summary in the article's language.
pub fn refine_card(
    headline: &str,
    raw_summary: &str,
    article_lang: &str,
    session_lang: &str,
    answer: Option<&str>,
) -> (r: RefinedCard)
    ensures
        match answer {
            Some(a) => match parse_refinement_spec(a@) {
                Some((t, s)) => r.title@ == t && r.summary@ == s && r.lang@ == session_lang@,
                None => r.title@ == headline@ && r.summary@ == raw_summary@ && r.lang@ == article_lang@,
            },
            None => r.title@ == headline@ && r.summary@ == raw_summary@ && r.lang@ == article_lang@,
        },
{
    if let Some(a) = answer {
        if let Some((t, s)) = parse_refinement(a) {
            return RefinedCard { title: t, summary: s, lang: String::from_str(session_lang) };
        }
    }
    RefinedCard {
        title: String::from_str(headline),
        summary: String::from_str(raw_summary),
        lang: String::from_str(article_lang),
    }
}

/// Where a session's stream stands.
#[derive(Debug, Clone, Copy, PartialEq, Eq, Structural)]
pub enum Phase {
    /// The connection is open and the session not yet loaded.
    Connected,
    /// The greeting went out and the digest is being assembled.
    Assembling,
    /// Cards `next..total` of the digest are still to be sent.
    Streaming { next: usize, total: usize },
    /// Waiting for the user.
    Idle,
    /// The connection is gone.
    Closed,
}

/// What happened on a session.
#[derive(Debug, Clone, Copy, PartialEq, Eq, Structural)]
pub enum SessionEvent {
    /// The session was loaded; it may already hold messages.
    Opened { has_history: bool },
    /// The digest was assembled with this many cards.
    DigestReady { cards: usize },
    /// The current card was sent and its view recorded.
    CardSent,
    /// The user sent a chat message.
    UserMessage,
    /// The user rated a card.
    Rate { rating: u8 },
    /// The connection closed.
    Disconnected,
}

/// What the streamer does next.
#[derive(Debug, Clone, Copy, PartialEq, Eq, Structural)]
pub enum SessionAction {
    /// Replay the stored messages as history.
    ReplayHistory,
    /// Send the greeting and assemble the digest.
    GreetAndAssemble,
    /// Tell the user that there is nothing new.
    NoArticles,
    /// Refine card `index`, send it and record its view.
    SendCard { index: usize },
    /// Send and store the closing message.
    Close,
    /// Answer the user's message.
    Answer,
    /// Store the rating and update the interest vector.
    StoreRating,
    /// Refuse a rating outside one to five stars.
    RejectRating,
    /// Nothing to do.
    Nothing,
}

pub open spec fn step_spec(p: Phase, e: SessionEvent) -> (Phase, SessionAction) {
    match (p, e) {
        (Phase::Closed, _) => (Phase::Closed, SessionAction::Nothing),
        (_, SessionEvent::Disconnected) => (Phase::Closed, SessionAction::Nothing),
        (_, SessionEvent::UserMessage) => (p, SessionAction::Answer),
        (_, SessionEvent::Rate { rating }) => if 1 <= rating <= 5 {
            (p, SessionAction::StoreRating)
        } else {
            (p, SessionAction::RejectRating)
        },
        (Phase::Connected, SessionEvent::Opened { has_history }) => if has_history {
            (Phase::Idle, SessionAction::ReplayHistory)
        } else {
            (Phase::Assembling, SessionAction::GreetAndAssemble)
        },
        (Phase::Assembling, SessionEvent::DigestReady { cards }) => if cards == 0 {
            (Phase::Idle, SessionAction::NoArticles)
        } else {
            (Phase::Streaming { next: 0, total: cards }, SessionAction::SendCard { index: 0 })
        },
        (Phase::Streaming { next, total }, SessionEvent::CardSent) => if next + 1 < total {
            (Phase::Streaming { next: (next + 1) as usize, total }, SessionAction::SendCard { index: (next + 1) as usize })
        } else {
            (Phase::Idle, SessionAction::Close)
        },
        _ => (p, SessionAction::Nothing),
    }
}

impl Phase {
    /// A streaming phase points at a card of the digest.
    pub open spec fn wf(self) -> bool {
        self matches Phase::Streaming { next, total } ==> next < total
    }
}

/// The session's next phase and action after an event: history is replayed
/// or a digest streamed card by card and closed; chat and ratings are
/// served in any open phase.
pub fn session_step(p: Phase, e: SessionEvent) -> (r: (Phase, SessionAction))
    requires
        p.wf(),
    ensures
        r == step_spec(p, e),
        r.0.wf(),
{
    match (p, e) {
        (Phase::Closed, _) => (Phase::Closed, SessionAction::Nothing),
        (_, SessionEvent::Disconnected) => (Phase::Closed, SessionAction::Nothing),
        (_, SessionEvent::UserMessage) => (p, SessionAction::Answer),
        (_, SessionEvent::Rate { rating }) => {
            if 1 <= rating && rating <= 5 {
                (p, SessionAction::StoreRating)
            } else {
                (p, SessionAction::RejectRating)
            }
        },
        (Phase::Connected, SessionEvent::Opened { has_history }) => {
            if has_history {
                (Phase::Idle, SessionAction::ReplayHistory)
            } else {
                (Phase::Assembling, SessionAction::GreetAndAssemble)
            }
        },
        (Phase::Assembling, SessionEvent::DigestReady { cards }) => {
            if cards == 0 {
                (Phase::Idle, SessionAction::NoArticles)
            } else {
                (Phase::Streaming { next: 0, total: cards }, SessionAction::SendCard { index: 0 })
            }
        },
        (Phase::Streaming { next, total }, SessionEvent::CardSent) => {
            if next + 1 < total {
                (Phase::Streaming { next: next + 1, total }, SessionAction::SendCard { index: next + 1 })
            } else {
                (Phase::Idle, SessionAction::Close)
            }
        },
        _ => (p, SessionAction::Nothing),
    }
}

/// Streaming law: from card `next` of `total`, each acknowledged card leads
/// to the following one, and the last to the closing message.
pub proof fn lemma_stream_progress(next: usize, total: usize)
    requires
        next < total,
    ensures
        next + 1 < total ==> step_spec(Phase::Streaming { next, total }, SessionEvent::CardSent) == (
            Phase::Streaming { next: (next + 1) as usize, total },
            SessionAction::SendCard { index: (next + 1) as usize },
        ),
        next + 1 == total ==> step_spec(Phase::Streaming { next, total }, SessionEvent::CardSent) == (
            Phase::Idle,
            SessionAction::Close,
        ),
{
}

/// One message of a session's history.
#[derive(Debug, Clone)]
pub struct ChatTurn {
    /// `user` or `assistant`.
    pub author: String,
    pub message: String,
}

/// The lines that present one article to the chat.
pub open spec fn article_block(a: ArticleContext) -> Seq<char> {
    "Title: "@ + a.title@ + "\nSummary: "@ + a.summary@ + "\n"@ + match a.content {
        Some(c) => "Content Snippet: "@ + clipped(c@, 500) + "\n"@,
        None => Seq::<char>::empty(),
    } + "\n"@
}

pub open spec fn article_blocks(s: Seq<ArticleContext>) -> Seq<char>
    decreases s.len(),
{
    if s.len() == 0 {
        Seq::empty()
    } else {
        article_blocks(s.drop_last()) + article_block(s.last())
    }
}

pub open spec fn history_lines(s: Seq<ChatTurn>) -> Seq<char>
    decreases s.len(),
{
    if s.len() == 0 {
        Seq::empty()
    } else {
        history_lines(s.drop_last()) + s.last().author@ + ": "@ + s.last().message@ + "\n"@
    }
}

pub open spec fn chat_intro(lang: Seq<char>) -> Seq<char> {
    "You are a helpful news assistant for Newscope. The user is exploring their personalized news feed. Answer questions concisely and help them understand the news. IMPORTANT: You MUST answer in "@
        + language_name_spec(lang) + ".\n\n"@
}

/// The chat prompt: the instruction to answer in the session's language,
/// the session's articles (snippets cut at 500 characters), the last ten
/// messages, and the user's new message.
pub open spec fn chat_prompt_spec(
    lang: Seq<char>,
    articles: Seq<ArticleContext>,
    history: Seq<ChatTurn>,
    user_message: Seq<char>,
) -> Seq<char> {
    let context = if articles.len() == 0 {
        Seq::<char>::empty()
    } else {
        "Here are the articles in the user's current session:\n\n"@ + article_blocks(articles)
            + "Use the above articles to answer the user's questions if relevant.\n\n"@
    };
    let start = if history.len() > 10 { history.len() - 10 } else { 0 };
    chat_intro(lang) + context + history_lines(history.skip(start)) + "user: "@ + user_message
        + "\nassistant:"@
}

/// Builds the prompt that answers a user's chat message.
pub fn chat_prompt(
    lang: &str,
    articles: &Vec<ArticleContext>,
    history: &Vec<ChatTurn>,
    user_message: &str,
) -> (r: String)
    ensures
        r@ == chat_prompt_spec(lang@, articles@, history@, user_message@),
{
    let mut out: Vec<char> = Vec::new();
    push_str(&mut out, "You are a helpful news assistant for Newscope. The user is exploring their personalized news feed. Answer questions concisely and help them understand the news. IMPORTANT: You MUST answer in ");
    push_str(&mut out, language_name(lang));
    push_str(&mut out, ".\n\n");
    assert(out@ =~= chat_intro(lang@));
    let ghost intro = out@;
    if articles.len() > 0 {
        push_str(&mut out, "Here are the articles in the user's current session:\n\n");
        let ghost head = out@;
        let mut i: usize = 0;
        while i < articles.len()
            invariant
                i <= articles@.len(),
                out@ == head + article_blocks(articles@.take(i as int)),
            decreases articles.len() - i,
        {
            let ghost before = out@;
            let a = &articles[i];
            push_str(&mut out, "Title: ");
            push_str(&mut out, a.title.as_str());
            push_str(&mut out, "\nSummary: ");
            push_str(&mut out, a.summary.as_str());
            push_str(&mut out, "\n");
            let ghost mid = out@;
            match &a.content {
                Some(c) => {
                    push_str(&mut out, "Content Snippet: ");
                    let snippet = clip(c.as_str(), 500);
                    push_str(&mut out, snippet.as_str());
                    push_str(&mut out, "\n");
                },
                None => {},
            }
            push_str(&mut out, "\n");
            proof {
                assert(articles@.take(i + 1).drop_last() =~= articles@.take(i as int));
                assert(articles@.take(i + 1).last() == articles@[i as int]);
                assert(out@ =~= before + article_block(articles@[i as int]));
            }
            i = i + 1;
        }
        assert(articles@.take(articles@.len() as int) =~= articles@);
        push_str(&mut out, "Use the above articles to answer the user's questions if relevant.\n\n");
    }
    let ghost ctx_end = out@;
    let start = history_start(history.len());
    let ghost hs = history@.skip(start as int);
    let mut j: usize = start;
    while j < history.len()
        invariant
            start <= j <= history@.len(),
            hs == history@.skip(start as int),
            out@ == ctx_end + history_lines(hs.take(j - start)),
        decreases history.len() - j,
    {
        let ghost before = out@;
        push_str(&mut out, history[j].author.as_str());
        push_str(&mut out, ": ");
        push_str(&mut out, history[j].message.as_str());
        push_str(&mut out, "\n");
        proof {
            assert(hs.take(j + 1 - start).drop_last() =~= hs.take(j - start));
            assert(hs.take(j + 1 - start).last() == history@[j as int]);
            assert(out@ =~= before + history@[j as int].author@ + ": "@ + history@[j as int].message@ + "\n"@);
        }
        j = j + 1;
    }
    assert(hs.take(history@.len() - start) =~= hs);
    push_str(&mut out, "user: ");
    push_str(&mut out, user_message);
    push_str(&mut out, "\nassistant:");
    let r = string_of(out);
    assert(r@ =~= chat_prompt_spec(lang@, articles@, history@, user_message@));
    r
}

} // verus!
