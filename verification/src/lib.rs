//! The resilient interaction layer of a social-media agent: a monthly usage
//! quota, exponential backoff, a retry engine, request signing and a bounded
//! interaction ledger, each with a machine-checked contract.

pub mod api;
pub mod auth;
pub mod backoff;
pub mod clock;
pub mod config;
pub mod knowledge_base;
pub mod llm;
pub mod models;
pub mod rate_limiter;
pub mod retry;
pub mod signer;
pub mod state;
pub mod wallet;
