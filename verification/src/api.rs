use vstd::prelude::*;

verus! {

use vstd::string::StringExecFns;
use crate::feed::{Cursor, FeedKey, FetchSuccess};
use crate::json;

/// An authenticated session: the bearer token that authorizes every listing
/// call, obtained once per run.
#[derive(Debug)]
pub struct Session {
    pub access_token: String,
}

impl Clone for Session {
    fn clone(&self) -> (r: Session)
        ensures
            r == *self,
    {
        Session { access_token: self.access_token.clone() }
    }
}

/// Why authentication failed.
#[derive(Debug)]
pub enum AuthError {
    /// The provider answered with a structured error payload; holds the
    /// payload's error string.
    ProviderRejected(String),
    /// A non-success status without a parseable error body.
    HttpStatus(u16),
    /// A success status whose body carried no access token.
    Decode,
    /// The request itself failed; holds the transport's message.
    Transport(String),
}

/// Why a listing fetch failed.
#[derive(Debug)]
pub enum FetchError {
    /// No session: the client was asked to fetch before authenticating.
    Unauthenticated,
    /// A non-success status.
    HttpStatus(u16),
    /// A body that does not match the listing shape.
    Decode,
    /// The request itself failed; holds the transport's message.
    Transport(String),
}

/// The character of one decimal digit.
pub open spec fn dec_digit(d: nat) -> char
    recommends
        d < 10,
{
    if d == 0 {
        '0'
    } else if d == 1 {
        '1'
    } else if d == 2 {
        '2'
    } else if d == 3 {
        '3'
    } else if d == 4 {
        '4'
    } else if d == 5 {
        '5'
    } else if d == 6 {
        '6'
    } else if d == 7 {
        '7'
    } else if d == 8 {
        '8'
    } else {
        '9'
    }
}

/// The decimal rendering of `n`, most significant digit first, without
/// leading zeroes except for zero itself.
pub open spec fn spec_dec(n: nat) -> Seq<char>
    decreases n,
{
    if n < 10 {
        seq![dec_digit(n)]
    } else {
        spec_dec(n / 10) + seq![dec_digit(n % 10)]
    }
}

fn digit_str(d: u64) -> (r: &'static str)
    requires
        d < 10,
    ensures
        r@ == seq![dec_digit(d as nat)],
{
    if d == 0 {
        proof {
            reveal_strlit("0");
            assert("0"@ =~= seq![dec_digit(0)]);
        }
        "0"
    } else if d == 1 {
        proof {
            reveal_strlit("1");
            assert("1"@ =~= seq![dec_digit(1)]);
        }
        "1"
    } else if d == 2 {
        proof {
            reveal_strlit("2");
            assert("2"@ =~= seq![dec_digit(2)]);
        }
        "2"
    } else if d == 3 {
        proof {
            reveal_strlit("3");
            assert("3"@ =~= seq![dec_digit(3)]);
        }
        "3"
    } else if d == 4 {
        proof {
            reveal_strlit("4");
            assert("4"@ =~= seq![dec_digit(4)]);
        }
        "4"
    } else if d == 5 {
        proof {
            reveal_strlit("5");
            assert("5"@ =~= seq![dec_digit(5)]);
        }
        "5"
    } else if d == 6 {
        proof {
            reveal_strlit("6");
            assert("6"@ =~= seq![dec_digit(6)]);
        }
        "6"
    } else if d == 7 {
        proof {
            reveal_strlit("7");
            assert("7"@ =~= seq![dec_digit(7)]);
        }
        "7"
    } else if d == 8 {
        proof {
            reveal_strlit("8");
            assert("8"@ =~= seq![dec_digit(8)]);
        }
        "8"
    } else {
        proof {
            reveal_strlit("9");
            assert("9"@ =~= seq![dec_digit(9)]);
        }
        "9"
    }
}

/// Renders `n` in decimal.
pub fn u64_to_dec(n: u64) -> (r: String)
    ensures
        r@ == spec_dec(n as nat),
    decreases n,
{
    if n < 10 {
        String::from_str(digit_str(n))
    } else {
        let mut s = u64_to_dec(n / 10);
        s.append(digit_str(n % 10));
        s
    }
}

impl AuthError {
    /// The human-readable message for this failure.
    pub open spec fn spec_message(self) -> Seq<char> {
        match self {
            AuthError::ProviderRejected(m) => "Reddit API error: "@ + m@,
            AuthError::HttpStatus(code) => "Authentication failed with status: "@ + spec_dec(
                code as nat,
            ),
            AuthError::Decode => "Failed to parse authentication response"@,
            AuthError::Transport(m) => m@,
        }
    }

    pub fn message(&self) -> (r: String)
        ensures
            r@ == self.spec_message(),
    {
        match self {
            AuthError::ProviderRejected(m) => {
                let mut s = String::from_str("Reddit API error: ");
                s.append(m.as_str());
                s
            },
            AuthError::HttpStatus(code) => {
                let mut s = String::from_str("Authentication failed with status: ");
                let d = u64_to_dec(*code as u64);
                s.append(d.as_str());
                s
            },
            AuthError::Decode => String::from_str("Failed to parse authentication response"),
            AuthError::Transport(m) => m.clone(),
        }
    }
}

impl FetchError {
    /// The human-readable message for this failure.
    pub open spec fn spec_message(self) -> Seq<char> {
        match self {
            FetchError::Unauthenticated => "Not authenticated"@,
            FetchError::HttpStatus(code) => "Failed to fetch listing with status: "@ + spec_dec(
                code as nat,
            ),
            FetchError::Decode => "Failed to parse Reddit listing"@,
            FetchError::Transport(m) => m@,
        }
    }

    pub fn message(&self) -> (r: String)
        ensures
            r@ == self.spec_message(),
    {
        match self {
            FetchError::Unauthenticated => String::from_str("Not authenticated"),
            FetchError::HttpStatus(code) => {
                let mut s = String::from_str("Failed to fetch listing with status: ");
                let d = u64_to_dec(*code as u64);
                s.append(d.as_str());
                s
            },
            FetchError::Decode => String::from_str("Failed to parse Reddit listing"),
            FetchError::Transport(m) => m.clone(),
        }
    }
}

/// The message recorded in feed state when authentication fails.
pub fn auth_failure_message(e: &AuthError) -> (r: String)
    ensures
        r@ == "Authentication error: "@ + e.spec_message(),
{
    let mut s = String::from_str("Authentication error: ");
    let m = e.message();
    s.append(m.as_str());
    s
}

/// The message recorded in feed state when a posts fetch fails.
pub fn fetch_failure_message(e: &FetchError) -> (r: String)
    ensures
        r@ == "Error fetching posts: "@ + e.spec_message(),
{
    let mut s = String::from_str("Error fetching posts: ");
    let m = e.message();
    s.append(m.as_str());
    s
}

/// The message recorded in feed state when the subscription-list fetch
/// fails.
pub fn subscriptions_failure_message(e: &FetchError) -> (r: String)
    ensures
        r@ == "Error fetching subreddits: "@ + e.spec_message(),
{
    let mut s = String::from_str("Error fetching subreddits: ");
    let m = e.message();
    s.append(m.as_str());
    s
}

/// The provider's token endpoint.
pub fn token_url() -> (r: String)
    ensures
        r@ == "https://www.reddit.com/api/v1/access_token"@,
{
    String::from_str("https://www.reddit.com/api/v1/access_token")
}

/// The subscription-list endpoint.
pub fn subscriptions_url() -> (r: String)
    ensures
        r@ == "https://oauth.reddit.com/subreddits/mine/subscriber"@,
{
    String::from_str("https://oauth.reddit.com/subreddits/mine/subscriber")
}

/// The listing URL for a feed at a cursor: the home or subreddit endpoint,
/// with `?after=` appended exactly when a pagination token is in hand.
pub open spec fn spec_listing_url(key: FeedKey, cursor: Cursor) -> Seq<char> {
    let base = match key {
        FeedKey::Home => "https://oauth.reddit.com/"@,
        FeedKey::Subreddit(name) => "https://oauth.reddit.com/r/"@ + name@,
    };
    match cursor {
        Cursor::Token(t) => base + "?after="@ + t@,
        Cursor::Start => base,
        Cursor::Unknown => base,
    }
}

/// Builds the URL a fetch command is performed against.
pub fn listing_url(key: &FeedKey, cursor: &Cursor) -> (r: String)
    ensures
        r@ == spec_listing_url(*key, *cursor),
{
    let mut url = match key {
        FeedKey::Home => String::from_str("https://oauth.reddit.com/"),
        FeedKey::Subreddit(name) => {
            let mut u = String::from_str("https://oauth.reddit.com/r/");
            u.append(name.as_str());
            u
        },
    };
    match cursor {
        Cursor::Token(t) => {
            url.append("?after=");
            url.append(t.as_str());
        },
        Cursor::Start => {},
        Cursor::Unknown => {},
    }
    url
}

/// What the base64 STANDARD engine yields for the UTF-8 bytes of a string:
/// a function of the characters alone.
pub uninterp spec fn base64_standard(s: Seq<char>) -> Seq<char>;

/// Relies on base64's STANDARD engine via Engine::encode; the result
/// depends on the input bytes alone. Encoding nothing yields nothing.
#[verifier::external_body]
fn base64_encode_str(s: &str) -> (r: String)
    requires
        s@.len() <= 0x1000_0000_0000_0000,
    ensures
        r@ == base64_standard(s@),
        s@.len() == 0 ==> r@.len() == 0,
{
    base64::Engine::encode(&base64::engine::general_purpose::STANDARD, s)
}

/// The credential pair joined for basic authentication.
pub open spec fn spec_basic_credentials(client_id: Seq<char>, client_secret: Seq<char>) -> Seq<
    char,
> {
    client_id + ":"@ + client_secret
}

/// The Authorization header of the token request.
pub open spec fn spec_basic_auth_header(client_id: Seq<char>, client_secret: Seq<char>) -> Seq<
    char,
> {
    "Basic "@ + base64_standard(spec_basic_credentials(client_id, client_secret))
}

/// Builds the `Basic` Authorization header from the client credentials.
pub fn basic_auth_header(client_id: &str, client_secret: &str) -> (r: String)
    requires
        client_id@.len() + client_secret@.len() < 0x1000_0000_0000_0000,
    ensures
        r@ == spec_basic_auth_header(client_id@, client_secret@),
{
    proof {
        reveal_strlit(":");
    }
    let mut credentials = client_id.to_owned();
    credentials.append(":");
    credentials.append(client_secret);
    let encoded = base64_encode_str(credentials.as_str());
    let mut header = String::from_str("Basic ");
    header.append(encoded.as_str());
    header
}

/// The `Bearer` Authorization header of every listing request.
pub fn bearer_header(session: &Session) -> (r: String)
    ensures
        r@ == "Bearer "@ + session.access_token@,
{
    let mut header = String::from_str("Bearer ");
    header.append(session.access_token.as_str());
    header
}

/// The password-grant form sent to the token endpoint, pairs in wire order.
pub fn token_form_pairs(username: &str, password: &str) -> (r: Vec<(String, String)>)
    ensures
        r@.len() == 3,
        r@[0].0@ == "grant_type"@ && r@[0].1@ == "password"@,
        r@[1].0@ == "username"@ && r@[1].1@ == username@,
        r@[2].0@ == "password"@ && r@[2].1@ == password@,
{
    let mut r: Vec<(String, String)> = Vec::new();
    r.push((String::from_str("grant_type"), String::from_str("password")));
    r.push((String::from_str("username"), username.to_owned()));
    r.push((String::from_str("password"), password.to_owned()));
    r
}

/// The outcome of the token request, decided from the HTTP status and the
/// fields extracted from the response body: a session exactly on a success
/// status whose body carried a token; on failure, the provider's structured
/// error when one was sent, the bare status otherwise.
pub open spec fn spec_classify_auth(
    status: u16,
    error_field: Option<String>,
    token_field: Option<String>,
) -> Result<Session, AuthError> {
    if 200 <= status < 300 {
        match token_field {
            Some(t) => Ok(Session { access_token: t }),
            None => Err(AuthError::Decode),
        }
    } else {
        match error_field {
            Some(m) => Err(AuthError::ProviderRejected(m)),
            None => Err(AuthError::HttpStatus(status)),
        }
    }
}

/// Decides the outcome of the token request from its status and the
/// already-extracted body fields.
pub fn classify_auth(
    status: u16,
    error_field: Option<String>,
    token_field: Option<String>,
) -> (r: Result<Session, AuthError>)
    ensures
        r == spec_classify_auth(status, error_field, token_field),
{
    if 200 <= status && status < 300 {
        match token_field {
            Some(t) => Ok(Session { access_token: t }),
            None => Err(AuthError::Decode),
        }
    } else {
        match error_field {
            Some(m) => Err(AuthError::ProviderRejected(m)),
            None => Err(AuthError::HttpStatus(status)),
        }
    }
}

/// The `error` string of the token response body, when the body carries
/// one.
pub open spec fn spec_auth_error(doc: Option<crate::json::Json>) -> Option<Seq<char>> {
    match doc {
        Some(root) => crate::json::spec_str_field(root, "error"@),
        None => None,
    }
}

/// The `access_token` string of the token response body, when the body
/// carries one.
pub open spec fn spec_auth_token(doc: Option<crate::json::Json>) -> Option<Seq<char>> {
    match doc {
        Some(root) => crate::json::spec_str_field(root, "access_token"@),
        None => None,
    }
}

/// Decides the outcome of the token request from its status and raw body:
/// `spec_classify_auth` applied to the status and the two fields the body
/// denotes.
pub fn classify_auth_response(status: u16, body: &str) -> (r: Result<Session, AuthError>)
    ensures
        200 <= status < 300 && spec_auth_token(json::json_doc_of(body@)) is Some ==> (r matches
            Ok(s) && s.access_token@ == spec_auth_token(json::json_doc_of(body@))->0),
        200 <= status < 300 && spec_auth_token(json::json_doc_of(body@)) is None ==> r == Err::<
            Session,
            AuthError,
        >(AuthError::Decode),
        !(200 <= status < 300) && spec_auth_error(json::json_doc_of(body@)) is Some ==> (r matches
            Err(e) && (e matches AuthError::ProviderRejected(m) && m@ == spec_auth_error(
            json::json_doc_of(body@),
        )->0)),
        !(200 <= status < 300) && spec_auth_error(json::json_doc_of(body@)) is None ==> r == Err::<
            Session,
            AuthError,
        >(AuthError::HttpStatus(status)),
{
    let (error_field, token_field) = match json::parse_json_tree(body) {
        Some(root) => {
            let e = json::json_str_field(&root, "error");
            let t = json::json_str_field(&root, "access_token");
            (e, t)
        },
        None => (None, None),
    };
    classify_auth(status, error_field, token_field)
}

/// Decides the outcome of a listing fetch from its status and raw body: a
/// non-success status is that status's error; on a success status the
/// result is exactly what the body denotes as a listing, or the decode
/// error when it denotes none.
pub fn classify_listing_response(status: u16, body: &str) -> (r: Result<FetchSuccess, FetchError>)
    ensures
        r is Ok ==> 200 <= status < 300,
        !(200 <= status < 300) ==> r == Err::<FetchSuccess, FetchError>(
            FetchError::HttpStatus(status),
        ),
        200 <= status < 300 ==> match json::spec_decode_listing(json::json_doc_of(body@)) {
            Some(listing) => r matches Ok(page) && crate::post::posts_view(page.posts@)
                == listing.0 && json::opt_string_view(page.after) == listing.1,
            None => r == Err::<FetchSuccess, FetchError>(FetchError::Decode),
        },
{
    if !(200 <= status && status < 300) {
        return Err(FetchError::HttpStatus(status));
    }
    match json::decode_listing(body) {
        Ok((posts, after)) => Ok(FetchSuccess { posts, after }),
        Err(e) => Err(e),
    }
}

/// Decides the outcome of the subscription-list fetch from its status and
/// raw body: a non-success status is that status's error; on a success
/// status the result is exactly the display names the body denotes, or the
/// decode error when it denotes none.
pub fn classify_subscriptions_response(status: u16, body: &str) -> (r: Result<
    Vec<String>,
    FetchError,
>)
    ensures
        r is Ok ==> 200 <= status < 300,
        !(200 <= status < 300) ==> r == Err::<Vec<String>, FetchError>(
            FetchError::HttpStatus(status),
        ),
        200 <= status < 300 ==> match json::spec_decode_subscriptions(
            json::json_doc_of(body@),
        ) {
            Some(ns) => r matches Ok(names) && json::strings_view(names@) == ns,
            None => r == Err::<Vec<String>, FetchError>(FetchError::Decode),
        },
{
    if !(200 <= status && status < 300) {
        return Err(FetchError::HttpStatus(status));
    }
    json::decode_subscriptions(body)
}

/// The fetch that is attempted without a session fails before any request.
pub fn session_or_unauthenticated<'a>(session: &'a Option<Session>) -> (r: Result<
    &'a Session,
    FetchError,
>)
    ensures
        r is Ok <==> session is Some,
        r matches Ok(s) ==> session matches Some(held) && *s == held,
        r matches Err(e) ==> e is Unauthenticated,
{
    match session {
        Some(s) => Ok(s),
        None => Err(FetchError::Unauthenticated),
    }
}

} // verus!
