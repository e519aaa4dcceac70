//! What is put to the language model: the request that asks it for a reply
//! to one post.

use vstd::prelude::*;
use vstd::string::StringExecFns;

verus! {

/// The most tokens a reply may have: what fits in one post.
pub const MAX_REPLY_TOKENS: u32 = 280;

/// The standing instruction of every request.
pub const SYSTEM_PROMPT: &'static str =
    "You are a helpful AI assistant managing a Twitter account. Your responses should be concise, friendly, and appropriate for Twitter. Never reveal sensitive information or private keys. Focus on providing value while maintaining a professional tone.";

/// One turn of the exchange.
#[derive(Clone, Debug)]
pub struct Message {
    pub role: String,
    pub content: String,
}

/// A turn as a mathematical value.
pub struct MessageView {
    pub role: Seq<char>,
    pub content: Seq<char>,
}

impl View for Message {
    type V = MessageView;

    open spec fn view(&self) -> MessageView {
        MessageView { role: self.role@, content: self.content@ }
    }
}

/// The request for one reply.
#[derive(Clone, Debug)]
pub struct ReplyRequest {
    pub model: String,
    pub system: String,
    pub messages: Vec<Message>,
    pub max_tokens: u32,
}

/// The turns that ask for a reply to `tweet_text` in the light of
/// `context`: each line of context as a turn of the assistant, in order,
/// then the post as the one turn of the user.
pub open spec fn reply_turns(tweet_text: Seq<char>, context: Seq<Seq<char>>) -> Seq<MessageView> {
    Seq::new(
        context.len() + 1,
        |i: int|
            if i < context.len() {
                MessageView { role: "assistant"@, content: context[i] }
            } else {
                MessageView { role: "user"@, content: tweet_text }
            },
    )
}

/// The line of context that names the author of a post.
pub fn author_context(author_id: &str) -> (line: String)
    ensures
        line@ == "User: "@ + author_id@,
{
    let mut line = String::from_str("User: ");
    line.append(author_id);
    line
}

/// The turns that ask for a reply to `tweet_text` in the light of
/// `context`.
pub fn build_messages(tweet_text: &str, context: &Vec<String>) -> (messages: Vec<Message>)
    ensures
        messages@.map_values(|m: Message| m@) == reply_turns(
            tweet_text@,
            context@.map_values(|line: String| line@),
        ),
{
    let ghost lines = context@.map_values(|line: String| line@);
    let ghost view_of = |m: Message| m@;
    let mut messages: Vec<Message> = Vec::new();
    let mut i: usize = 0;
    while i < context.len()
        invariant
            i <= context.len(),
            lines == context@.map_values(|line: String| line@),
            messages.len() == i,
            forall|k: int|
                0 <= k < i ==> (#[trigger] messages[k])@ == (MessageView {
                    role: "assistant"@,
                    content: lines[k],
                }),
        decreases context.len() - i,
    {
        messages.push(
            Message { role: String::from_str("assistant"), content: context[i].clone() },
        );
        i = i + 1;
    }
    messages.push(
        Message { role: String::from_str("user"), content: String::from_str(tweet_text) },
    );
    assert(messages@.map_values(view_of) =~= reply_turns(tweet_text@, lines));
    messages
}

/// The request that asks `model` for a reply to `tweet_text` in the light of
/// `context`: the model's name, the standing instruction, the turns and the
/// token limit.
pub fn reply_request(model: &str, tweet_text: &str, context: &Vec<String>) -> (request:
    ReplyRequest)
    ensures
        request.model@ == model@,
        request.system@ == SYSTEM_PROMPT@,
        request.max_tokens == MAX_REPLY_TOKENS,
        request.messages@.map_values(|m: Message| m@) == reply_turns(
            tweet_text@,
            context@.map_values(|line: String| line@),
        ),
{
    ReplyRequest {
        model: String::from_str(model),
        system: String::from_str(SYSTEM_PROMPT),
        messages: build_messages(tweet_text, context),
        max_tokens: MAX_REPLY_TOKENS,
    }
}

/// The reply among the texts that the model gave: the first; none where it
/// gave none.
pub fn first_reply(texts: Vec<String>) -> (reply: Option<String>)
    ensures
        match reply {
            Some(text) => texts@.len() > 0 && text@ == texts@[0]@,
            None => texts@.len() == 0,
        },
{
    if texts.len() > 0 {
        Some(texts[0].clone())
    } else {
        None
    }
}

} // verus!
