//! Verified core of a portfolio backend: the retrieval-augmented chat
//! pipeline (context formatting, keyword-search semantics, prompt assembly,
//! orchestration with fallback), plus the admin authentication rules.

pub mod auth;
pub mod chat;
pub mod config;
pub mod error;
pub mod formatter;
pub mod models;
pub mod prompt;
pub mod record;
pub mod search;
pub mod text;
