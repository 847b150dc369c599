//! The configuration's sections, and the choice of a language-model endpoint
//! for each of the two modes.
use vstd::prelude::*;

verus! {

/// `[database]`: where the store file lies.
#[derive(Debug, Clone)]
pub struct DatabaseConfig {
    pub path: String,
}

/// `[scheduler]`: advisory ingestion times, as `HH:MM`.
#[derive(Debug, Clone)]
pub struct SchedulerConfig {
    pub times: Vec<String>,
}

/// `[politeness]`: limits on fetching.
#[derive(Debug, Clone)]
pub struct PolitenessConfig {
    pub delay_seconds: Option<u64>,
    pub concurrency_per_domain: Option<u32>,
    pub max_response_bytes: Option<u64>,
    pub fetch_timeout_seconds: Option<u64>,
    pub respect_robots_txt: Option<bool>,
}

/// `[llm.local]`.
#[derive(Debug, Clone)]
pub struct LocalLlmConfig {
    pub model_path: Option<String>,
    pub max_threads: Option<u32>,
}

/// One remote endpoint: `[llm.remote]`, `[llm.background]`, `[llm.interactive]`
/// and the task sections.
#[derive(Debug, Clone)]
pub struct RemoteLlmConfig {
    pub api_url: Option<String>,
    pub api_key_env: Option<String>,
    pub model: Option<String>,
    pub timeout_seconds: Option<u64>,
    pub max_tokens: Option<usize>,
}

/// `[llm]`.
#[derive(Debug, Clone)]
pub struct LlmConfig {
    /// `local`, `remote` or `none`.
    pub adapter: Option<String>,
    pub local: Option<LocalLlmConfig>,
    pub remote: Option<RemoteLlmConfig>,
    pub summarization: Option<RemoteLlmConfig>,
    pub personalization: Option<RemoteLlmConfig>,
    pub embedding: Option<RemoteLlmConfig>,
    pub interaction: Option<RemoteLlmConfig>,
    pub background: Option<RemoteLlmConfig>,
    pub interactive: Option<RemoteLlmConfig>,
}

/// A feed of a user's initial list.
#[derive(Debug, Clone)]
pub struct FeedConfig {
    pub url: String,
    pub title: Option<String>,
}

/// `[[users]]`: a user of the initial roster.
#[derive(Debug, Clone)]
pub struct UserConfig {
    pub username: String,
    pub display_name: Option<String>,
    pub preferred_language: Option<String>,
    pub password_hash: Option<String>,
    pub feeds: Vec<FeedConfig>,
}

/// `[admin]`.
#[derive(Debug, Clone)]
pub struct AdminConfig {
    pub auto_migrate: Option<bool>,
    pub diagnostics_dir: Option<String>,
}

/// The two ways the model is used: background work and the chat.
#[derive(Debug, Clone, Copy, PartialEq, Eq, Structural)]
pub enum LlmMode {
    Background,
    Interactive,
}

/// The endpoint section for a mode: the mode's own, else `[llm.remote]`,
/// else the other mode's, so that one section serves both.
pub open spec fn endpoint_for_spec(c: LlmConfig, mode: LlmMode) -> Option<RemoteLlmConfig> {
    let (own, other) = match mode {
        LlmMode::Background => (c.background, c.interactive),
        LlmMode::Interactive => (c.interactive, c.background),
    };
    if own is Some {
        own
    } else if c.remote is Some {
        c.remote
    } else {
        other
    }
}

impl LlmConfig {
    /// The endpoint section that serves `mode`.
    pub fn endpoint_for(&self, mode: LlmMode) -> (r: Option<&RemoteLlmConfig>)
        ensures
            match endpoint_for_spec(*self, mode) {
                Some(e) => r matches Some(x) && *x == e,
                None => r is None,
            },
    {
        let (own, other) = match mode {
            LlmMode::Background => (&self.background, &self.interactive),
            LlmMode::Interactive => (&self.interactive, &self.background),
        };
        match own {
            Some(e) => Some(e),
            None => match &self.remote {
                Some(e) => Some(e),
                None => match other {
                    Some(e) => Some(e),
                    None => None,
                },
            },
        }
    }
}

/// The default time limit of a model call, in seconds.
pub const DEFAULT_LLM_TIMEOUT_SECONDS: u64 = 30;

/// The default token limit of a model answer.
pub const DEFAULT_LLM_MAX_TOKENS: usize = 500;

/// The time limit and token limit of an endpoint, with the defaults for
/// those it leaves out.
pub fn endpoint_limits(e: &RemoteLlmConfig) -> (r: (u64, usize))
    ensures
        r.0 == match e.timeout_seconds {
            Some(t) => t,
            None => DEFAULT_LLM_TIMEOUT_SECONDS,
        },
        r.1 == match e.max_tokens {
            Some(m) => m,
            None => DEFAULT_LLM_MAX_TOKENS,
        },
{
    let t = match e.timeout_seconds {
        Some(t) => t,
        None => DEFAULT_LLM_TIMEOUT_SECONDS,
    };
    let m = match e.max_tokens {
        Some(m) => m,
        None => DEFAULT_LLM_MAX_TOKENS,
    };
    (t, m)
}

/// The fetch time limit, in seconds: the configured one, else ten.
pub fn fetch_timeout_seconds(p: Option<&PolitenessConfig>) -> (r: u64)
    ensures
        r == match p {
            Some(c) => match c.fetch_timeout_seconds {
                Some(t) => t,
                None => 10,
            },
            None => 10,
        },
{
    match p {
        Some(c) => match c.fetch_timeout_seconds {
            Some(t) => t,
            None => 10,
        },
        None => 10,
    }
}

/// The roster fields that a stored user holds.
#[derive(Debug, Clone)]
pub struct StoredUser {
    pub username: String,
    pub display_name: Option<String>,
    pub password_hash: Option<String>,
}

pub open spec fn coalesce(new: Option<String>, old: Option<String>) -> Option<String> {
    if new is Some {
        new
    } else {
        old
    }
}

/// A user of the roster after synchronization: added when missing; the
/// display name and password hash that the roster gives replace the stored
/// ones, and those it leaves out are kept.
pub fn sync_user(existing: Option<StoredUser>, u: UserConfig) -> (r: StoredUser)
    ensures
        r.username == u.username,
        match existing {
            Some(e) => r.display_name == coalesce(u.display_name, e.display_name)
                && r.password_hash == coalesce(u.password_hash, e.password_hash),
            None => r.display_name == u.display_name && r.password_hash == u.password_hash,
        },
{
    match existing {
        Some(e) => {
            let display_name = match u.display_name {
                Some(d) => Some(d),
                None => e.display_name,
            };
            let password_hash = match u.password_hash {
                Some(h) => Some(h),
                None => e.password_hash,
            };
            StoredUser { username: u.username, display_name, password_hash }
        },
        None => StoredUser {
            username: u.username,
            display_name: u.display_name,
            password_hash: u.password_hash,
        },
    }
}

} // verus!
