//! The core of a personalized news aggregator: the adaptive polling
//! schedule and fetch policy, the store's uniqueness rules, article
//! processing (summaries, categories, embedding input), personalization
//! decisions, digest selection under a reading budget, and the session
//! streamer's decisions.
pub mod api;
pub mod catalog;
pub mod config;
pub mod digest;
pub mod fetch;
pub mod jobs;
pub mod llm;
pub mod personalize;
pub mod processing;
pub mod scheduler;
pub mod session;
pub mod summarizer;
pub mod text;
pub mod vectors;
