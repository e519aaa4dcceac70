//! The payloads exchanged with the service, as plain values.

use vstd::prelude::*;
use vstd::string::StringExecFns;

verus! {

/// The answer to a token request.
#[derive(Clone, Debug)]
pub struct TokenResponse {
    pub access_token: String,
    pub token_type: String,
}

/// The envelope of a listing.
#[derive(Clone, Debug)]
pub struct TwitterResponse<T> {
    pub data: Option<Vec<T>>,
    pub meta: Option<Meta>,
}

/// What a listing says of itself.
#[derive(Clone, Debug)]
pub struct Meta {
    pub newest_id: Option<String>,
    pub oldest_id: Option<String>,
    pub result_count: Option<i32>,
    pub next_token: Option<String>,
}

/// One post.
#[derive(Clone, Debug)]
pub struct Tweet {
    pub id: String,
    pub text: String,
    pub author_id: Option<String>,
}

/// The body of a request that creates a post.
#[derive(Clone, Debug)]
pub struct TweetCreate {
    pub text: String,
    pub reply: Option<ReplySettings>,
}

/// What makes a new post a reply.
#[derive(Clone, Debug)]
pub struct ReplySettings {
    pub in_reply_to_tweet_id: String,
}

impl<T> TwitterResponse<T> {
    /// The items of the listing, in its order; none where it carries no
    /// data.
    pub fn into_items(self) -> (items: Vec<T>)
        ensures
            items@ == match self.data {
                Some(data) => data@,
                None => Seq::<T>::empty(),
            },
    {
        match self.data {
            Some(data) => data,
            None => Vec::new(),
        }
    }
}

impl Tweet {
    /// The id of the author; empty where the post names none.
    pub fn author(&self) -> (author: String)
        ensures
            author@ == match self.author_id {
                Some(id) => id@,
                None => Seq::<char>::empty(),
            },
    {
        match &self.author_id {
            Some(id) => id.clone(),
            None => String::new(),
        }
    }
}

impl TweetCreate {
    /// The body that posts `text` in reply to the post `reply_to_id`.
    pub fn reply_to(text: &str, reply_to_id: &str) -> (body: TweetCreate)
        ensures
            body.text@ == text@,
            body.reply matches Some(settings) && settings.in_reply_to_tweet_id@ == reply_to_id@,
    {
        TweetCreate {
            text: String::from_str(text),
            reply: Some(ReplySettings { in_reply_to_tweet_id: String::from_str(reply_to_id) }),
        }
    }
}

} // verus!
