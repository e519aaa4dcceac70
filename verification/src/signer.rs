//! The request signer: the OAuth 1.0 `Authorization` value of one request.
//!
//! Signing is stateless. Each call draws its own nonce and reads its own
//! timestamp, so that no two values for one method and URL are alike; the
//! caller supplies neither. A signature covers the method, the URL up to its
//! query, and the parameters of the query, which are read off the URL as
//! they are written there.

use crate::backoff::random_up_to;
use crate::clock::utc_now;
use vstd::prelude::*;
use vstd::string::StrSliceExecFns;
use vstd::string::StringExecFns;

verus! {

/// The four long-lived secrets of an account.
#[derive(Clone, Debug)]
pub struct Credentials {
    pub consumer_key: String,
    pub consumer_secret: String,
    pub access_token: String,
    pub access_token_secret: String,
}

/// Why a request could not be signed: the named credential is empty. The
/// first empty one, in the order of the fields, is named.
#[derive(Clone, Copy, Debug, PartialEq, Eq, Structural)]
pub enum SigningError {
    EmptyConsumerKey,
    EmptyConsumerSecret,
    EmptyAccessToken,
    EmptyAccessTokenSecret,
}

/// The credentials as mathematical values.
pub struct CredentialsView {
    pub consumer_key: Seq<char>,
    pub consumer_secret: Seq<char>,
    pub access_token: Seq<char>,
    pub access_token_secret: Seq<char>,
}

impl CredentialsView {
    /// What is structurally wrong with the credentials, if anything.
    pub open spec fn defect(self) -> Option<SigningError> {
        if self.consumer_key.len() == 0 {
            Some(SigningError::EmptyConsumerKey)
        } else if self.consumer_secret.len() == 0 {
            Some(SigningError::EmptyConsumerSecret)
        } else if self.access_token.len() == 0 {
            Some(SigningError::EmptyAccessToken)
        } else if self.access_token_secret.len() == 0 {
            Some(SigningError::EmptyAccessTokenSecret)
        } else {
            None
        }
    }
}

impl View for Credentials {
    type V = CredentialsView;

    open spec fn view(&self) -> CredentialsView {
        CredentialsView {
            consumer_key: self.consumer_key@,
            consumer_secret: self.consumer_secret@,
            access_token: self.access_token@,
            access_token_secret: self.access_token_secret@,
        }
    }
}

impl SigningError {
    /// The error in words.
    pub open spec fn spec_message(self) -> Seq<char> {
        match self {
            SigningError::EmptyConsumerKey => "consumer key is empty"@,
            SigningError::EmptyConsumerSecret => "consumer secret is empty"@,
            SigningError::EmptyAccessToken => "access token is empty"@,
            SigningError::EmptyAccessTokenSecret => "access token secret is empty"@,
        }
    }

    /// The error in words.
    pub fn message(&self) -> (text: String)
        ensures
            text@ == self.spec_message(),
    {
        let text = match self {
            SigningError::EmptyConsumerKey => "consumer key is empty",
            SigningError::EmptyConsumerSecret => "consumer secret is empty",
            SigningError::EmptyAccessToken => "access token is empty",
            SigningError::EmptyAccessTokenSecret => "access token secret is empty",
        };
        text.to_owned()
    }
}

impl Credentials {
    /// What is structurally wrong with the credentials, if anything.
    pub fn check(&self) -> (verdict: Result<(), SigningError>)
        ensures
            match verdict {
                Ok(()) => self@.defect() is None,
                Err(e) => self@.defect() == Some(e),
            },
    {
        if self.consumer_key.as_str().is_empty() {
            Err(SigningError::EmptyConsumerKey)
        } else if self.consumer_secret.as_str().is_empty() {
            Err(SigningError::EmptyConsumerSecret)
        } else if self.access_token.as_str().is_empty() {
            Err(SigningError::EmptyAccessToken)
        } else if self.access_token_secret.as_str().is_empty() {
            Err(SigningError::EmptyAccessTokenSecret)
        } else {
            Ok(())
        }
    }
}

/// Whether `at` is where `c` first stands in `s`, or the length of `s`
/// where `c` does not stand in it.
pub open spec fn is_first_index(s: Seq<char>, c: char, at: int) -> bool {
    &&& 0 <= at <= s.len()
    &&& forall|i: int| 0 <= i < at ==> s[i] != c
    &&& at < s.len() ==> s[at] == c
}

/// Where `c` first stands in `s`; the length of `s` where it does not.
pub open spec fn first_index(s: Seq<char>, c: char) -> int {
    choose|at: int| is_first_index(s, c, at)
}

/// There is one first index, and `at` is it.
pub proof fn lemma_first_index(s: Seq<char>, c: char, at: int)
    requires
        is_first_index(s, c, at),
    ensures
        first_index(s, c) == at,
{
    let chosen = first_index(s, c);
    assert(is_first_index(s, c, chosen));
    if chosen < at {
        assert(s[chosen] != c);
    }
    if at < chosen {
        assert(s[at] != c);
    }
}

/// Whether `url` has a query part.
pub open spec fn has_query(url: Seq<char>) -> bool {
    url.contains('?')
}

/// The part of `url` before its query: all that stands before the first
/// `?`.
pub open spec fn url_base(url: Seq<char>) -> Seq<char> {
    url.subrange(0, first_index(url, '?'))
}

/// The query of `url`: all that stands after the first `?`.
pub open spec fn url_query(url: Seq<char>) -> Seq<char> {
    let mark = first_index(url, '?');
    if 0 <= mark < url.len() {
        url.subrange(mark + 1, url.len() as int)
    } else {
        Seq::empty()
    }
}

/// The parameter that the piece `piece` of a query states: the name is what
/// stands before the first `=`, the value what stands after it. A piece
/// without `=` is a name with an empty value.
pub open spec fn query_pair(piece: Seq<char>) -> (Seq<char>, Seq<char>) {
    let sign = first_index(piece, '=');
    if 0 <= sign < piece.len() {
        (piece.subrange(0, sign), piece.subrange(sign + 1, piece.len() as int))
    } else {
        (piece, Seq::empty())
    }
}

/// The parameters that `query` states, in its order: one for each piece
/// between two `&` that is not empty. Names and values are taken as they are
/// written; no escape is resolved.
pub open spec fn query_pairs(query: Seq<char>) -> Seq<(Seq<char>, Seq<char>)>
    decreases query.len(),
{
    if query.len() == 0 {
        Seq::empty()
    } else {
        let end = first_index(query, '&');
        if 0 < end < query.len() {
            seq![query_pair(query.subrange(0, end))] + query_pairs(
                query.subrange(end + 1, query.len() as int),
            )
        } else if end == 0 {
            query_pairs(query.subrange(1, query.len() as int))
        } else {
            seq![query_pair(query)]
        }
    }
}

/// A list of parameters as a mathematical value.
pub open spec fn parameters_view(parameters: Seq<(String, String)>) -> Seq<
    (Seq<char>, Seq<char>),
> {
    parameters.map_values(|p: (String, String)| (p.0@, p.1@))
}

/// The hexadecimal digit of the number `d`, which is below 16.
pub open spec fn hex_digit(d: int) -> char {
    if d == 0 {
        '0'
    } else if d == 1 {
        '1'
    } else if d == 2 {
        '2'
    } else if d == 3 {
        '3'
    } else if d == 4 {
        '4'
    } else if d == 5 {
        '5'
    } else if d == 6 {
        '6'
    } else if d == 7 {
        '7'
    } else if d == 8 {
        '8'
    } else if d == 9 {
        '9'
    } else if d == 10 {
        'a'
    } else if d == 11 {
        'b'
    } else if d == 12 {
        'c'
    } else if d == 13 {
        'd'
    } else if d == 14 {
        'e'
    } else {
        'f'
    }
}

/// The lowest `count` hexadecimal digits of `n`, the lowest first.
pub open spec fn hex_digits(n: nat, count: nat) -> Seq<char>
    decreases count,
{
    if count == 0 {
        Seq::empty()
    } else {
        seq![hex_digit((n % 16) as int)] + hex_digits(n / 16, (count - 1) as nat)
    }
}

/// The nonce made of two drawn numbers: the sixteen hexadecimal digits of
/// each, the lowest first.
pub open spec fn nonce_text(first: u64, second: u64) -> Seq<char> {
    hex_digits(first as nat, 16) + hex_digits(second as nat, 16)
}

/// The `Authorization` value of a `method` request to `url`, which has no
/// query part, with the parameters `parameters`, signed with `credentials`
/// by HMAC-SHA1 under the given nonce and timestamp: what
/// `oauth1_request::Builder::authorize` makes of them.
pub uninterp spec fn oauth1_header(
    method: Seq<char>,
    url: Seq<char>,
    parameters: Seq<(Seq<char>, Seq<char>)>,
    credentials: CredentialsView,
    nonce: Seq<char>,
    timestamp: u64,
) -> Seq<char>;

/// The `Authorization` value of a `method` request to `url` signed with
/// `credentials` under the given nonce and timestamp. The URL is signed up
/// to its query, and the parameters of the query are covered with it.
pub open spec fn signed_header(
    method: Seq<char>,
    url: Seq<char>,
    credentials: CredentialsView,
    nonce: Seq<char>,
    timestamp: u64,
) -> Seq<char> {
    oauth1_header(
        method,
        url_base(url),
        query_pairs(url_query(url)),
        credentials,
        nonce,
        timestamp,
    )
}

/// Whether `value` names the OAuth scheme: it begins with the scheme name
/// and a space.
pub open spec fn has_oauth_scheme(value: Seq<char>) -> bool {
    value.len() >= 6 && value.subrange(0, 6) == "OAuth "@
}

/// The characters of `text`, one by one.
fn characters(text: &str) -> (chars: Vec<char>)
    ensures
        chars@ == text@,
{
    let mut chars: Vec<char> = Vec::new();
    for c in it: text.chars()
        invariant
            it.seq() == text@,
            chars@ == text@.subrange(0, it.index() as int),
    {
        chars.push(c);
        assert(chars@ =~= text@.subrange(0, it.index() + 1));
    }
    assert(chars@ =~= text@);
    chars
}

/// Where `c` first stands in `chars` between `from` and `to`; `to` where it
/// does not.
fn find_first(chars: &Vec<char>, from: usize, to: usize, c: char) -> (at: usize)
    requires
        from <= to <= chars.len(),
    ensures
        from <= at <= to,
        is_first_index(chars@.subrange(from as int, to as int), c, at - from),
        first_index(chars@.subrange(from as int, to as int), c) == at - from,
{
    let mut at = from;
    while at < to && chars[at] != c
        invariant
            from <= at <= to <= chars.len(),
            forall|i: int| from <= i < at ==> chars[i] != c,
        decreases to - at,
    {
        at = at + 1;
    }
    proof {
        lemma_first_index(chars@.subrange(from as int, to as int), c, at - from);
    }
    at
}

/// Splits `url` at its first `?` into what is signed as the URL and the
/// parameters that its query states.
pub fn split_url(url: &str) -> (parts: (String, Vec<(String, String)>))
    ensures
        parts.0@ == url_base(url@),
        !has_query(parts.0@),
        parameters_view(parts.1@) == query_pairs(url_query(url@)),
{
    let chars = characters(url);
    let n = chars.len();
    let mark = find_first(&chars, 0, n, '?');
    assert(chars@.subrange(0, n as int) =~= url@);
    let base = url.substring_char(0, mark).to_owned();
    let mut parameters: Vec<(String, String)> = Vec::new();
    let mut start = if mark < n {
        mark + 1
    } else {
        n
    };
    assert(url_query(url@) =~= url@.subrange(start as int, n as int));
    assert(parameters_view(parameters@) =~= Seq::empty());
    while start < n
        invariant
            chars@ == url@,
            n == chars.len(),
            start <= n,
            query_pairs(url_query(url@)) == parameters_view(parameters@) + query_pairs(
                url@.subrange(start as int, n as int),
            ),
        decreases n - start,
    {
        let ghost rest = url@.subrange(start as int, n as int);
        let ghost before = parameters@;
        let end = find_first(&chars, start, n, '&');
        if end > start {
            let sign = find_first(&chars, start, end, '=');
            let ghost piece = url@.subrange(start as int, end as int);
            let name = url.substring_char(start, sign).to_owned();
            let value = if sign < end {
                url.substring_char(sign + 1, end).to_owned()
            } else {
                String::new()
            };
            assert(rest.subrange(0, end - start) =~= piece);
            assert(end == n ==> rest =~= piece);
            assert(name@ =~= query_pair(piece).0);
            assert(value@ =~= query_pair(piece).1);
            parameters.push((name, value));
            assert(parameters_view(parameters@) =~= parameters_view(before) + seq![
                query_pair(piece),
            ]);
        }
        let next = if end < n {
            end + 1
        } else {
            n
        };
        assert(end < n ==> rest.subrange(end - start + 1, rest.len() as int)
            =~= url@.subrange(next as int, n as int));
        assert(end == n ==> query_pairs(url@.subrange(next as int, n as int)) =~= Seq::empty());
        start = next;
    }
    assert(query_pairs(url@.subrange(start as int, n as int)) =~= Seq::empty());
    (base, parameters)
}

/// The text of one hexadecimal digit.
fn hex_digit_text(d: u64) -> (text: &'static str)
    requires
        d < 16,
    ensures
        text@ == seq![hex_digit(d as int)],
{
    let text = if d == 0 {
        "0"
    } else if d == 1 {
        "1"
    } else if d == 2 {
        "2"
    } else if d == 3 {
        "3"
    } else if d == 4 {
        "4"
    } else if d == 5 {
        "5"
    } else if d == 6 {
        "6"
    } else if d == 7 {
        "7"
    } else if d == 8 {
        "8"
    } else if d == 9 {
        "9"
    } else if d == 10 {
        "a"
    } else if d == 11 {
        "b"
    } else if d == 12 {
        "c"
    } else if d == 13 {
        "d"
    } else if d == 14 {
        "e"
    } else {
        "f"
    };
    proof {
        reveal_strlit("0");
        reveal_strlit("1");
        reveal_strlit("2");
        reveal_strlit("3");
        reveal_strlit("4");
        reveal_strlit("5");
        reveal_strlit("6");
        reveal_strlit("7");
        reveal_strlit("8");
        reveal_strlit("9");
        reveal_strlit("a");
        reveal_strlit("b");
        reveal_strlit("c");
        reveal_strlit("d");
        reveal_strlit("e");
        reveal_strlit("f");
        assert(text@ =~= seq![hex_digit(d as int)]);
    }
    text
}

/// Appends to `text` the sixteen hexadecimal digits of `n`, the lowest
/// first.
fn append_hex(text: &mut String, n: u64)
    ensures
        final(text)@ == old(text)@ + hex_digits(n as nat, 16),
{
    let mut left = n;
    let mut done: u8 = 0;
    let ghost written: Seq<char> = Seq::empty();
    assert(text@ =~= old(text)@ + written);
    while done < 16
        invariant
            done <= 16,
            text@ == old(text)@ + written,
            written + hex_digits(left as nat, (16 - done) as nat) == hex_digits(n as nat, 16),
        decreases 16 - done,
    {
        let digit = hex_digit_text(left % 16);
        text.append(digit);
        proof {
            let step = seq![hex_digit((left % 16) as int)];
            assert(hex_digits(left as nat, (16 - done) as nat) == step + hex_digits(
                (left / 16) as nat,
                (15 - done) as nat,
            ));
            assert(text@ =~= old(text)@ + (written + step));
            assert((written + step) + hex_digits((left / 16) as nat, (15 - done) as nat)
                =~= written + (step + hex_digits((left / 16) as nat, (15 - done) as nat)));
            written = written + step;
        }
        left = left / 16;
        done = done + 1;
    }
    assert(written =~= hex_digits(n as nat, 16));
}

/// The nonce made of the two drawn numbers `first` and `second`.
pub fn nonce_of(first: u64, second: u64) -> (nonce: String)
    ensures
        nonce@ == nonce_text(first, second),
{
    let mut nonce = String::new();
    append_hex(&mut nonce, first);
    append_hex(&mut nonce, second);
    assert(nonce@ =~= nonce_text(first, second));
    nonce
}

/// Signs a request with `oauth1_request`: the credentials go into a
/// `Token`, the parameters into a `ParameterList`, nonce and timestamp are
/// set on a `Builder` for HMAC-SHA1, and `Builder::authorize` makes the
/// `Authorization` header value.
///
/// Trusted: the body is not verified. With nonce and timestamp given, the
/// value is a function of the arguments alone and is named, not restated;
/// beside the name stands that it begins with `OAuth `, which the crate
/// writes first. In debug builds the crate panics on a URL with a `?` in
/// it, and without a timestamp it reads the clock; both are kept out.
#[verifier::external_body]
fn oauth1_authorize(
    method: &str,
    url: &str,
    parameters: &Vec<(String, String)>,
    credentials: &Credentials,
    nonce: &str,
    timestamp: u64,
) -> (value: String)
    requires
        !has_query(url@),
        timestamp >= 1,
    ensures
        value@ == oauth1_header(
            method@,
            url@,
            parameters_view(parameters@),
            credentials@,
            nonce@,
            timestamp,
        ),
        has_oauth_scheme(value@),
{
    let token = oauth1_request::Token::from_parts(
        credentials.consumer_key.as_str(),
        credentials.consumer_secret.as_str(),
        credentials.access_token.as_str(),
        credentials.access_token_secret.as_str(),
    );
    let pairs: Vec<(&str, &str)> =
        parameters.iter().map(|p| (p.0.as_str(), p.1.as_str())).collect();
    let request = oauth1_request::ParameterList::new(pairs);
    let mut builder = oauth1_request::Builder::with_token(token, oauth1_request::HMAC_SHA1);
    builder.nonce(nonce).timestamp(std::num::NonZeroU64::new(timestamp));
    builder.authorize(method, url, &request)
}

/// The `Authorization` value for a `method` request to `url`, under the
/// given nonce and the given timestamp, in seconds since the epoch and
/// positive as the protocol asks.
///
/// Signing fails exactly when one of the credentials is empty, and then
/// names the first that is. Otherwise the value is the header signed over
/// the method, the URL up to its query and the parameters of the query.
pub fn sign_at(
    method: &str,
    url: &str,
    credentials: &Credentials,
    nonce: &str,
    timestamp: u64,
) -> (signed: Result<String, SigningError>)
    requires
        timestamp >= 1,
    ensures
        match signed {
            Ok(value) => credentials@.defect() is None && value@ == signed_header(
                method@,
                url@,
                credentials@,
                nonce@,
                timestamp,
            ) && has_oauth_scheme(value@),
            Err(e) => credentials@.defect() == Some(e),
        },
{
    match credentials.check() {
        Err(e) => {
            return Err(e);
        },
        Ok(()) => {},
    }
    let (base, parameters) = split_url(url);
    Ok(oauth1_authorize(method, base.as_str(), &parameters, credentials, nonce, timestamp))
}

/// The `Authorization` value for a `method` request to `url`.
///
/// Signing fails exactly when one of the credentials is empty, and then
/// names the first that is. It reaches no network, so it fails for no other
/// reason. Otherwise the value is the header signed under a nonce made of
/// two numbers drawn here and under the time that the system clock shows,
/// or under the first second where the clock stands before it.
pub fn sign(method: &str, url: &str, credentials: &Credentials) -> (signed: Result<
    String,
    SigningError,
>)
    ensures
        match signed {
            Ok(value) => credentials@.defect() is None && has_oauth_scheme(value@) && exists|
                first: u64,
                second: u64,
                timestamp: u64,
            |
                timestamp >= 1 && value@ == #[trigger] signed_header(
                    method@,
                    url@,
                    credentials@,
                    nonce_text(first, second),
                    timestamp,
                ),
            Err(e) => credentials@.defect() == Some(e),
        },
{
    let first = random_up_to(u64::MAX);
    let second = random_up_to(u64::MAX);
    let nonce = nonce_of(first, second);
    let now = utc_now();
    let timestamp: u64 = if now.instant.unix_seconds >= 1 {
        now.instant.unix_seconds as u64
    } else {
        1
    };
    let signed = sign_at(method, url, credentials, nonce.as_str(), timestamp);
    proof {
        if signed is Ok {
            assert(signed->Ok_0@ == signed_header(
                method@,
                url@,
                credentials@,
                nonce_text(first, second),
                timestamp,
            ));
        }
    }
    signed
}

} // verus!
