//! The account's session with the service: its credentials and its quota,
//! and what is computed around each request. The transport is the caller's.

use crate::clock::CalendarMonth;
use crate::config::MONTHLY_READS;
use crate::config::MONTHLY_WRITES;
use crate::config::TWITTER_API_BASE;
use crate::rate_limiter::QuotaKind;
use crate::rate_limiter::QuotaState;
use crate::rate_limiter::RateLimiter;
use crate::retry::count_of;
use crate::retry::counted;
use crate::retry::refusal;
use crate::retry::AttemptView;
use crate::retry::RetryAttempt;
use crate::retry::RetryError;
use crate::signer::has_oauth_scheme;
use crate::signer::nonce_text;
use crate::signer::parameters_view;
use crate::signer::sign;
use crate::signer::signed_header;
use crate::signer::Credentials;
use crate::signer::CredentialsView;
use crate::signer::SigningError;
use vstd::prelude::*;
use vstd::string::StringExecFns;

verus! {

/// The status that the service gives when its own rate limit is hit.
pub const TOO_MANY_REQUESTS: u16 = 429;

/// Whether `status` reports success: the codes from 200 to 299.
pub open spec fn success_status(status: u16) -> bool {
    200 <= status < 300
}

/// Whether `status` reports success.
pub fn is_success(status: u16) -> (yes: bool)
    ensures
        yes == success_status(status),
{
    200 <= status && status < 300
}

/// Whether an answer with `status` shows that the service can be reached:
/// a success does, and so does the refusal of a rate limit, since only the
/// service itself can give it.
pub fn connection_ok(status: u16) -> (yes: bool)
    ensures
        yes == (success_status(status) || status == TOO_MANY_REQUESTS),
{
    is_success(status) || status == TOO_MANY_REQUESTS
}

/// `base` followed by `tail`.
fn joined(base: &str, tail: &str) -> (whole: String)
    ensures
        whole@ == base@ + tail@,
{
    let mut whole = String::from_str(base);
    whole.append(tail);
    whole
}

/// The endpoint that creates posts.
pub fn tweets_url() -> (url: String)
    ensures
        url@ == TWITTER_API_BASE@ + "/tweets"@,
{
    joined(TWITTER_API_BASE, "/tweets")
}

/// The endpoint that searches recent posts.
pub fn search_recent_url() -> (url: String)
    ensures
        url@ == TWITTER_API_BASE@ + "/tweets/search/recent"@,
{
    joined(TWITTER_API_BASE, "/tweets/search/recent")
}

/// The request that shows whether the service can be reached: a search for
/// recent posts on one word.
pub fn connection_test_url() -> (url: String)
    ensures
        url@ == TWITTER_API_BASE@ + "/tweets/search/recent?query=rust"@,
{
    joined(TWITTER_API_BASE, "/tweets/search/recent?query=rust")
}

/// The endpoint that describes the account itself.
pub fn me_url() -> (url: String)
    ensures
        url@ == TWITTER_API_BASE@ + "/users/me"@,
{
    joined(TWITTER_API_BASE, "/users/me")
}

/// The endpoint of the likes of the user `user_id`.
pub fn likes_url(user_id: &str) -> (url: String)
    ensures
        url@ == TWITTER_API_BASE@ + "/users/"@ + user_id@ + "/likes"@,
{
    let mut url = joined(TWITTER_API_BASE, "/users/");
    url.append(user_id);
    url.append("/likes");
    url
}

/// The endpoint of the post `tweet_id`.
pub fn tweet_url(tweet_id: &str) -> (url: String)
    ensures
        url@ == TWITTER_API_BASE@ + "/tweets/"@ + tweet_id@,
{
    let mut url = joined(TWITTER_API_BASE, "/tweets/");
    url.append(tweet_id);
    url
}

/// The search for posts in English on `topic` that are neither reposts nor
/// replies.
pub fn search_query(topic: &str) -> (query: String)
    ensures
        query@ == topic@ + " -is:retweet -is:reply lang:en"@,
{
    joined(topic, " -is:retweet -is:reply lang:en")
}

/// The search for posts that mention the user `user_id`.
pub fn mentions_query(user_id: &str) -> (query: String)
    ensures
        query@ == "@"@ + user_id@,
{
    joined("@", user_id)
}

/// The stock reply to a post with the text `tweet_text`.
pub open spec fn stock_reply(tweet_text: Seq<char>) -> Seq<char> {
    "Thanks for sharing your thoughts about: "@ + tweet_text
}

/// The stock reply to a post with the text `tweet_text`.
pub fn reply_text(tweet_text: &str) -> (reply: String)
    ensures
        reply@ == stock_reply(tweet_text@),
{
    joined("Thanks for sharing your thoughts about: ", tweet_text)
}

/// The parameters of a search for recent posts with `query`, each with its
/// name: the query, the field wanted of each post, and the size of a page.
pub open spec fn search_parameters(query: Seq<char>) -> Seq<(Seq<char>, Seq<char>)> {
    seq![("query"@, query), ("tweet.fields"@, "author_id"@), ("max_results"@, "10"@)]
}

/// The parameters of a search for the mentions of the user `user_id`, each
/// with its name: the query, the fields wanted of each post, the size of a
/// page and, where there is a cursor, the id after which to resume.
pub open spec fn mentions_parameters(user_id: Seq<char>, since_id: Option<Seq<char>>) -> Seq<
    (Seq<char>, Seq<char>),
> {
    let fixed = seq![
        ("query"@, "@"@ + user_id),
        ("tweet.fields"@, "author_id,referenced_tweets"@),
        ("max_results"@, "100"@),
    ];
    match since_id {
        Some(id) => fixed.push(("since_id"@, id)),
        None => fixed,
    }
}

fn parameter(name: &str, value: &str) -> (pair: (String, String))
    ensures
        pair.0@ == name@,
        pair.1@ == value@,
{
    (String::from_str(name), String::from_str(value))
}

/// The parameters of a search for recent posts in English on
/// `topic`.
pub fn search_params(topic: &str) -> (parameters: Vec<(String, String)>)
    ensures
        parameters_view(parameters@) == search_parameters(
            topic@ + " -is:retweet -is:reply lang:en"@,
        ),
{
    let query = search_query(topic);
    let mut parameters: Vec<(String, String)> = Vec::new();
    parameters.push(parameter("query", query.as_str()));
    parameters.push(parameter("tweet.fields", "author_id"));
    parameters.push(parameter("max_results", "10"));
    assert(parameters_view(parameters@) =~= search_parameters(
        topic@ + " -is:retweet -is:reply lang:en"@,
    ));
    parameters
}

/// The parameters of a search for the mentions of the user `user_id`,
/// resumed after `since_id` where one is given.
pub fn mentions_params(user_id: &str, since_id: Option<&str>) -> (parameters: Vec<
    (String, String),
>)
    ensures
        parameters_view(parameters@) == mentions_parameters(
            user_id@,
            match since_id {
                Some(id) => Some(id@),
                None => None,
            },
        ),
{
    let query = mentions_query(user_id);
    let mut parameters: Vec<(String, String)> = Vec::new();
    parameters.push(parameter("query", query.as_str()));
    parameters.push(parameter("tweet.fields", "author_id,referenced_tweets"));
    parameters.push(parameter("max_results", "100"));
    match since_id {
        Some(id) => {
            parameters.push(parameter("since_id", id));
        },
        None => {},
    }
    assert(parameters_view(parameters@) =~= mentions_parameters(
        user_id@,
        match since_id {
            Some(id) => Some(id@),
            None => None,
        },
    ));
    parameters
}

/// The session of one account.
#[derive(Debug)]
pub struct TwitterApi {
    credentials: Credentials,
    rate_limiter: RateLimiter,
}

impl TwitterApi {
    /// The credentials of the account.
    pub closed spec fn credentials(&self) -> CredentialsView {
        self.credentials@
    }

    /// The state of the account's quota.
    pub closed spec fn quota(&self) -> QuotaState {
        self.rate_limiter@
    }

    /// A session with the given credentials and an unused quota of
    /// `MONTHLY_READS` reads and `MONTHLY_WRITES` writes, whose window is
    /// the month that the system clock shows.
    pub fn new(
        consumer_key: String,
        consumer_secret: String,
        access_token: String,
        access_token_secret: String,
    ) -> (api: Self)
        ensures
            api.credentials() == (CredentialsView {
                consumer_key: consumer_key@,
                consumer_secret: consumer_secret@,
                access_token: access_token@,
                access_token_secret: access_token_secret@,
            }),
            api.quota().read_count == 0,
            api.quota().write_count == 0,
            api.quota().read_ceiling == MONTHLY_READS,
            api.quota().write_ceiling == MONTHLY_WRITES,
            1 <= api.quota().window.month <= 12,
    {
        TwitterApi {
            credentials: Credentials {
                consumer_key,
                consumer_secret,
                access_token,
                access_token_secret,
            },
            rate_limiter: RateLimiter::new(MONTHLY_READS, MONTHLY_WRITES),
        }
    }

    /// A session with the given credentials and governor.
    pub fn with_limiter(credentials: Credentials, rate_limiter: RateLimiter) -> (api: Self)
        ensures
            api.credentials() == credentials@,
            api.quota() == rate_limiter@,
    {
        TwitterApi { credentials, rate_limiter }
    }

    /// The `Authorization` value for a `method` request to `url`, signed
    /// with the account's credentials under a nonce and a timestamp of its
    /// own. It fails exactly when a credential is empty.
    pub fn sign_request(&self, method: &str, url: &str) -> (signed: Result<String, SigningError>)
        ensures
            match signed {
                Ok(value) => self.credentials().defect() is None && has_oauth_scheme(value@)
                    && exists|first: u64, second: u64, timestamp: u64|
                    timestamp >= 1 && value@ == #[trigger] signed_header(
                        method@,
                        url@,
                        self.credentials(),
                        nonce_text(first, second),
                        timestamp,
                    ),
                Err(e) => self.credentials().defect() == Some(e),
            },
    {
        sign(method, url, &self.credentials)
    }

    /// The reads and the writes left in the current window, in that order.
    pub fn get_remaining_limits(&self) -> (left: (u32, u32))
        ensures
            left.0 == self.quota().remaining_reads(),
            left.1 == self.quota().remaining_writes(),
    {
        (self.rate_limiter.get_remaining_reads(), self.rate_limiter.get_remaining_writes())
    }

    /// The reply to a post with the text `tweet_text`: there always is one,
    /// the stock reply.
    pub fn generate_reply(&self, tweet_text: &str) -> (reply: Option<String>)
        ensures
            reply matches Some(text) && text@ == stock_reply(tweet_text@),
    {
        Some(reply_text(tweet_text))
    }

    /// Admission of a guarded request of `kind` at the month `now`, against
    /// the account's quota.
    pub fn begin_request_at<E>(
        &mut self,
        kind: QuotaKind,
        max_attempts: u32,
        now: CalendarMonth,
    ) -> (admitted: Result<RetryAttempt, RetryError<E>>)
        ensures
            final(self).credentials() == old(self).credentials(),
            final(self).quota() == old(self).quota().rolled_over(now),
            match admitted {
                Ok(attempt) => refusal::<E>(final(self).quota(), kind, max_attempts as nat)
                    is None && attempt@ == AttemptView::fresh(max_attempts as nat, kind),
                Err(e) => refusal::<E>(final(self).quota(), kind, max_attempts as nat) == Some(e),
            },
    {
        RetryAttempt::begin_at(&mut self.rate_limiter, kind, max_attempts, now)
    }

    /// Admission of a guarded request of `kind` at the month that the
    /// system clock shows.
    pub fn begin_request<E>(&mut self, kind: QuotaKind, max_attempts: u32) -> (admitted: Result<
        RetryAttempt,
        RetryError<E>,
    >)
        ensures
            final(self).credentials() == old(self).credentials(),
            exists|now: CalendarMonth| #[trigger]
                old(self).quota().rolled_over(now) == final(self).quota() && 1 <= now.month
                    <= 12,
            match admitted {
                Ok(attempt) => refusal::<E>(final(self).quota(), kind, max_attempts as nat)
                    is None && attempt@ == AttemptView::fresh(max_attempts as nat, kind),
                Err(e) => refusal::<E>(final(self).quota(), kind, max_attempts as nat) == Some(e),
            },
    {
        let admitted = RetryAttempt::begin(&mut self.rate_limiter, kind, max_attempts);
        proof {
            let now = choose|now: CalendarMonth| #[trigger]
                old(self).rate_limiter@.rolled_over(now) == self.rate_limiter@ && 1 <= now.month
                    <= 12;
            assert(old(self).quota().rolled_over(now) == self.quota() && 1 <= now.month <= 12);
        }
        admitted
    }

    /// Counts the success of a guarded request against the account's
    /// quota, and says whether it did: a count that stands at the largest
    /// number it can hold is left there.
    pub fn record_success(&mut self, attempt: RetryAttempt) -> (was_counted: bool)
        ensures
            final(self).credentials() == old(self).credentials(),
            was_counted == (count_of(old(self).quota(), attempt@.kind) < u32::MAX),
            was_counted ==> final(self).quota() == counted(old(self).quota(), attempt@.kind),
            !was_counted ==> final(self).quota() == old(self).quota(),
    {
        attempt.record_success(&mut self.rate_limiter)
    }
}

} // verus!
