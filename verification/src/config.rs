//! Constants of the service.

use vstd::prelude::*;

verus! {

/// The attempt budget of a guarded operation, where the caller names none.
pub const MAX_RETRIES: u32 = 5;

/// Seconds a request may take.
pub const REQUEST_TIMEOUT: u64 = 30;

/// Seconds a connection may take to open.
pub const CONNECT_TIMEOUT: u64 = 20;

/// Seconds an idle connection is kept.
pub const POOL_TIMEOUT: u64 = 90;

/// Reads that the service grants an account per month.
pub const MONTHLY_READS: u32 = 100;

/// Writes that the service grants an account per month.
pub const MONTHLY_WRITES: u32 = 500;

/// The root of the service's endpoints.
pub const TWITTER_API_BASE: &'static str = "https://api.twitter.com/2";

/// The endpoint that hands out application-only tokens.
pub const TWITTER_AUTH_URL: &'static str = "https://api.twitter.com/2/oauth2/token";

} // verus!
