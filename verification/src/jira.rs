//! Requests to Jira's own REST API (Jira Data Center's Tempo plugin tracks
//! time through native issue worklogs): what is sent, and what the replies
//! mean. The host performs the HTTP exchange; the token is sent as
//! `Authorization: Bearer <token>`.
use vstd::prelude::*;
use crate::text::{lossy_utf8, strip_trailing, trim, trim_end_char, trimmed, utf8_lossy};

verus! {

/// Jira rejects worklogs shorter than a minute.
pub const MIN_WORKLOG_SECONDS: i64 = 60;

/// `POST <url>` with a JSON body `{"comment", "started", "timeSpentSeconds"}`.
pub struct WorklogRequest {
    pub url: String,
    pub api_token: String,
    pub comment: String,
    /// Start of the work, as `%Y-%m-%dT%H:%M:%S%.3f%z` in local time.
    pub started: String,
    pub time_spent_seconds: i64,
}

/// A worklog request as text.
#[verifier::ext_equal]
pub struct WorklogRequestView {
    pub url: Seq<char>,
    pub api_token: Seq<char>,
    pub comment: Seq<char>,
    pub started: Seq<char>,
    pub time_spent_seconds: int,
}

impl View for WorklogRequest {
    type V = WorklogRequestView;

    open spec fn view(&self) -> WorklogRequestView {
        WorklogRequestView {
            url: self.url@,
            api_token: self.api_token@,
            comment: self.comment@,
            started: self.started@,
            time_spent_seconds: self.time_spent_seconds as int,
        }
    }
}

/// `GET <url>`; the reply names the user that the token belongs to.
pub struct TokenCheck {
    pub url: String,
    pub api_token: String,
}

/// A token check as text.
#[verifier::ext_equal]
pub struct TokenCheckView {
    pub url: Seq<char>,
    pub api_token: Seq<char>,
}

impl View for TokenCheck {
    type V = TokenCheckView;

    open spec fn view(&self) -> TokenCheckView {
        TokenCheckView { url: self.url@, api_token: self.api_token@ }
    }
}

/// How an exchange with Jira went, as far as the HTTP client tells.
pub enum Exchange {
    /// The HTTP client could not be set up; nothing was sent.
    NoClient(String),
    /// The request could not be sent or no reply came.
    NotSent(String),
    /// Jira replied: the status code, the status as text (code and reason,
    /// e.g. `404 Not Found`) and the body, or why it could not be read.
    Replied { status: u16, status_text: String, body: Result<Vec<u8>, String> },
}

/// An exchange as plain values.
#[verifier::ext_equal]
pub enum ExchangeView {
    NoClient(Seq<char>),
    NotSent(Seq<char>),
    Replied { status: u16, status_text: Seq<char>, body: Result<Seq<u8>, Seq<char>> },
}

impl View for Exchange {
    type V = ExchangeView;

    open spec fn view(&self) -> ExchangeView {
        match self {
            Exchange::NoClient(e) => ExchangeView::NoClient(e@),
            Exchange::NotSent(e) => ExchangeView::NotSent(e@),
            Exchange::Replied { status, status_text, body } => ExchangeView::Replied {
                status: *status,
                status_text: status_text@,
                body: match body {
                    Ok(b) => Ok(b@),
                    Err(e) => Err(e@),
                },
            },
        }
    }
}

/// What a reply body yields when parsed as JSON: `None` when it is not JSON;
/// otherwise its `displayName` field where that is a string.
pub uninterp spec fn reply_display_name(body: Seq<u8>) -> Option<Option<Seq<char>>>;

/// Calls `serde_json::from_slice::<serde_json::Value>` on the reply body and,
/// on the parsed value, `Value::get("displayName")` and `Value::as_str`. What
/// the parser accepts as JSON is only named, not stated.
#[verifier::external_body]
fn parse_display_name(body: &[u8]) -> (r: Option<Option<String>>)
    ensures
        reply_display_name(body@) == match r {
            None => None,
            Some(None) => Some(None),
            Some(Some(n)) => Some(Some(n@)),
        },
{
    match serde_json::from_slice::<serde_json::Value>(body) {
        Ok(value) => Some(value.get("displayName").and_then(|f| f.as_str()).map(|n| n.to_owned())),
        Err(_) => None,
    }
}

/// A success status: 200 to 299.
pub open spec fn is_success(status: u16) -> bool {
    200 <= status <= 299
}

/// The reply body as text (invalid UTF-8 replaced); empty when it could not
/// be read.
pub open spec fn body_text(body: Result<Seq<u8>, Seq<char>>) -> Seq<char> {
    match body {
        Ok(b) => lossy_utf8(b),
        Err(_) => Seq::empty(),
    }
}

/// Report of a client that could not be set up.
pub open spec fn client_failure(error: Seq<char>) -> Seq<char> {
    "failed to build HTTP client: "@ + error
}

/// Report of a request that could not be sent.
pub open spec fn request_failure(error: Seq<char>) -> Seq<char> {
    "request to Jira failed: "@ + error
}

/// Report of a reply with a status other than success.
pub open spec fn rejection(status_text: Seq<char>, body: Seq<char>) -> Seq<char> {
    "Jira returned "@ + status_text + ": "@ + body
}

/// Report of a reply that could not be read as JSON.
pub open spec fn unparsable(error: Seq<char>) -> Seq<char> {
    "could not parse Jira response: "@ + error
}

/// What the HTTP client reports of a body that is not JSON.
pub open spec fn decode_error() -> Seq<char> {
    "error decoding response body"@
}

/// The outcome of creating a worklog: success exactly on a success status.
pub open spec fn worklog_result(x: ExchangeView) -> Result<(), Seq<char>> {
    match x {
        ExchangeView::NoClient(e) => Err(client_failure(e)),
        ExchangeView::NotSent(e) => Err(request_failure(e)),
        ExchangeView::Replied { status, status_text, body } => if is_success(status) {
            Ok(())
        } else {
            Err(rejection(status_text, body_text(body)))
        },
    }
}

/// The outcome of a token check: on a success status with a JSON body, the
/// display name, or "unknown user" when the body names nobody.
pub open spec fn token_result(x: ExchangeView) -> Result<Seq<char>, Seq<char>> {
    match x {
        ExchangeView::NoClient(e) => Err(client_failure(e)),
        ExchangeView::NotSent(e) => Err(request_failure(e)),
        ExchangeView::Replied { status, status_text, body } => if !is_success(status) {
            Err(rejection(status_text, body_text(body)))
        } else {
            match body {
                Err(e) => Err(unparsable(e)),
                Ok(b) => match reply_display_name(b) {
                    None => Err(unparsable(decode_error())),
                    Some(None) => Ok(unknown_user()),
                    Some(Some(name)) => Ok(name),
                },
            }
        },
    }
}

/// The endpoint for worklogs on an issue: trailing slashes of the base URL
/// and surrounding whitespace of the key are dropped.
pub open spec fn worklog_url(base_url: Seq<char>, issue_key: Seq<char>) -> Seq<char> {
    strip_trailing(base_url, '/') + "/rest/api/2/issue/"@ + trimmed(issue_key) + "/worklog"@
}

/// The endpoint that describes the user a token belongs to.
pub open spec fn myself_url(base_url: Seq<char>) -> Seq<char> {
    strip_trailing(base_url, '/') + "/rest/api/2/myself"@
}

/// The time to book: the elapsed time, but at least one minute.
pub open spec fn spent_seconds(elapsed_seconds: int) -> int {
    if elapsed_seconds < 60 {
        60
    } else {
        elapsed_seconds
    }
}

/// The worklog request for the given settings and work.
pub open spec fn worklog_request_view(
    base_url: Seq<char>,
    api_token: Seq<char>,
    issue_key: Seq<char>,
    started: Seq<char>,
    elapsed_seconds: int,
    comment: Seq<char>,
) -> WorklogRequestView {
    WorklogRequestView {
        url: worklog_url(base_url, issue_key),
        api_token,
        comment,
        started,
        time_spent_seconds: spent_seconds(elapsed_seconds),
    }
}

/// The name shown for a user whose reply names nobody.
pub open spec fn unknown_user() -> Seq<char> {
    "unknown user"@
}

/// The request that creates a worklog of `elapsed_seconds` (at least a
/// minute) on the issue, started at `started`, described by `comment`.
pub fn worklog_request(
    base_url: &str,
    api_token: &str,
    issue_key: &str,
    started: &str,
    elapsed_seconds: i64,
    comment: &str,
) -> (r: WorklogRequest)
    ensures
        r@ == worklog_request_view(
            base_url@,
            api_token@,
            issue_key@,
            started@,
            elapsed_seconds as int,
            comment@,
        ),
{
    let mut url = trim_end_char(base_url, '/').to_owned();
    url.append("/rest/api/2/issue/");
    url.append(trim(issue_key));
    url.append("/worklog");
    let time_spent_seconds = if elapsed_seconds < MIN_WORKLOG_SECONDS {
        MIN_WORKLOG_SECONDS
    } else {
        elapsed_seconds
    };
    WorklogRequest {
        url,
        api_token: api_token.to_owned(),
        comment: comment.to_owned(),
        started: started.to_owned(),
        time_spent_seconds,
    }
}

/// The request that confirms that the URL and token work.
pub fn token_check(base_url: &str, api_token: &str) -> (r: TokenCheck)
    ensures
        r@ == (TokenCheckView { url: myself_url(base_url@), api_token: api_token@ }),
{
    let mut url = trim_end_char(base_url, '/').to_owned();
    url.append("/rest/api/2/myself");
    TokenCheck { url, api_token: api_token.to_owned() }
}

fn body_as_text(body: &Result<Vec<u8>, String>) -> (r: String)
    ensures
        r@ == body_text(
            match body {
                Ok(b) => Ok(b@),
                Err(e) => Err(e@),
            },
        ),
{
    match body {
        Ok(b) => utf8_lossy(b.as_slice()),
        Err(_) => String::new(),
    }
}

fn prefixed(prefix: &str, text: &str) -> (r: String)
    ensures
        r@ == prefix@ + text@,
{
    let mut r = prefix.to_owned();
    r.append(text);
    r
}

fn rejection_text(status_text: &str, body: &Result<Vec<u8>, String>) -> (r: String)
    ensures
        r@ == rejection(
            status_text@,
            body_text(
                match body {
                    Ok(b) => Ok(b@),
                    Err(e) => Err(e@),
                },
            ),
        ),
{
    let mut r = "Jira returned ".to_owned();
    r.append(status_text);
    r.append(": ");
    r.append(body_as_text(body).as_str());
    r
}

/// The outcome of creating a worklog: success exactly when Jira replied with
/// a success status, otherwise the report of what went wrong.
pub fn worklog_outcome(exchange: Exchange) -> (r: Result<(), String>)
    ensures
        match r {
            Ok(()) => worklog_result(exchange@) == Ok::<(), Seq<char>>(()),
            Err(e) => worklog_result(exchange@) == Err::<(), Seq<char>>(e@),
        },
{
    match exchange {
        Exchange::NoClient(e) => Err(prefixed("failed to build HTTP client: ", e.as_str())),
        Exchange::NotSent(e) => Err(prefixed("request to Jira failed: ", e.as_str())),
        Exchange::Replied { status, status_text, body } => {
            if 200 <= status && status <= 299 {
                Ok(())
            } else {
                Err(rejection_text(status_text.as_str(), &body))
            }
        },
    }
}

/// The outcome of a token check: the user's display name when Jira replied
/// with a success status and a JSON body ("unknown user" when the body has no
/// string `displayName`), otherwise the report of what went wrong.
pub fn token_reply(exchange: Exchange) -> (r: Result<String, String>)
    ensures
        match r {
            Ok(n) => token_result(exchange@) == Ok::<Seq<char>, Seq<char>>(n@),
            Err(e) => token_result(exchange@) == Err::<Seq<char>, Seq<char>>(e@),
        },
{
    match exchange {
        Exchange::NoClient(e) => Err(prefixed("failed to build HTTP client: ", e.as_str())),
        Exchange::NotSent(e) => Err(prefixed("request to Jira failed: ", e.as_str())),
        Exchange::Replied { status, status_text, body } => {
            if !(200 <= status && status <= 299) {
                Err(rejection_text(status_text.as_str(), &body))
            } else {
                match body {
                    Err(e) => Err(prefixed("could not parse Jira response: ", e.as_str())),
                    Ok(b) => match parse_display_name(b.as_slice()) {
                        None => Err(
                            prefixed(
                                "could not parse Jira response: ",
                                "error decoding response body",
                            ),
                        ),
                        Some(None) => Ok("unknown user".to_owned()),
                        Some(Some(name)) => Ok(name),
                    },
                }
            }
        },
    }
}

} // verus!
