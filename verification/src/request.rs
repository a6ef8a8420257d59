//! Request composition and outcome classification.
//!
//! Composing a request is pure: from an account and an endpoint name it
//! yields the target URL, the credentials to attach, the fixed
//! content-type header and the body, or a `Parse` error when the base URL
//! does not parse. Classifying is pure as well: from what the transport
//! reported it yields the wrapped success or the classified error. The
//! network call between the two is the caller's.

use crate::account::Account;
use crate::error::{Error, ErrorCode};
use vstd::prelude::*;
use vstd::string::{StrSliceExecFns, StringExecFns};

verus! {

/// Each component of a composed URL must stay below this many
/// characters.
pub const URL_COMPONENT_LIMIT: usize = 0x800_0000;

/// Whether `base` parses as an absolute URL, exactly when
/// `url::Url::parse` accepts it.
pub uninterp spec fn url_parses(base: Seq<char>) -> bool;

/// The serialization of the URL obtained by parsing `base` and replacing
/// its path with `path`, as `url::Url` computes it.
pub uninterp spec fn url_with_path(base: Seq<char>, path: Seq<char>) -> Seq<char>;

/// A machine limit on URL composition. `url::Url` tracks positions in
/// the serialized URL text with `u32` indices, and replacing the path
/// percent-encodes it (up to three bytes per byte, up to four bytes per
/// character). Holding each component below 2^27 characters keeps the
/// serialized text far below that index space.
pub open spec fn url_fits(base: Seq<char>, path: Seq<char>) -> bool {
    base.len() < URL_COMPONENT_LIMIT && path.len() < URL_COMPONENT_LIMIT
}

/// Relies on `url::Url::parse` and `url::Url::set_path`: parsing accepts
/// exactly the well-formed absolute URLs, `set_path` replaces the path
/// component (keeping scheme, authority, query and fragment), and both
/// compute from their arguments alone. On failure the parser's message is
/// returned. `set_path` indexes the URL text with `u32` and aborts when
/// the percent-encoded text outgrows it, so inputs that could reach that
/// size are excluded by `requires`.
#[verifier::external_body]
fn resolve_url(base: &str, path: &str) -> (r: Result<String, String>)
    requires
        url_fits(base@, path@),
    ensures
        r is Ok <==> url_parses(base@),
        r is Ok ==> r->Ok_0@ == url_with_path(base@, path@),
{
    match url::Url::parse(base) {
        Ok(mut u) => {
            u.set_path(path);
            Ok(u.as_str().to_owned())
        },
        Err(e) => Err(e.to_string()),
    }
}

/// Everything a transport needs to issue the one outbound call: the
/// HTTP method, the composed target URL, the basic-auth credentials,
/// the fixed content-type, and the serialized body.
#[derive(Debug)]
pub struct HttpRequest {
    pub method: String,
    pub url: String,
    pub username: String,
    pub password: String,
    pub content_type: String,
    pub body: String,
}

/// Composes the target URL for an endpoint: the account's base URL with
/// its path replaced by `sms/<endpoint>`. The base URL's own path is
/// overwritten, never joined. Fails with a `Parse` error, before any
/// network activity, exactly when the base URL does not parse or a
/// component exceeds the machine limit of [`url_fits`].
pub fn compose_url(account: &Account, endpoint: &str) -> (r: Result<String, Error>)
    ensures
        r is Ok <==> url_parses(account.base_url@) && url_fits(
            account.base_url@,
            "sms/"@ + endpoint@,
        ),
        r is Ok ==> r->Ok_0@ == url_with_path(account.base_url@, "sms/"@ + endpoint@),
        r is Err ==> r->Err_0.code() == ErrorCode::Parse && r->Err_0.msg_view() is Some,
        !url_fits(account.base_url@, "sms/"@ + endpoint@) ==> r is Err
            && r->Err_0.msg_view() == Some(
            "unable to compose the request url: base url or endpoint too long"@,
        ),
        url_fits(account.base_url@, "sms/"@ + endpoint@) && !url_parses(account.base_url@)
            ==> r is Err && r->Err_0.msg_view()->0.take(
            "unable to parse base base url: "@.len() as int,
        ) == "unable to parse base base url: "@,
{
    let mut path = "sms/".to_owned();
    path.append(endpoint);
    if account.base_url.as_str().unicode_len() >= URL_COMPONENT_LIMIT || path.as_str().unicode_len()
        >= URL_COMPONENT_LIMIT {
        return Err(
            Error::new(
                ErrorCode::Parse,
                Some("unable to compose the request url: base url or endpoint too long".to_owned()),
            ),
        );
    }
    match resolve_url(account.base_url.as_str(), path.as_str()) {
        Ok(u) => Ok(u),
        Err(e) => {
            let mut msg = "unable to parse base base url: ".to_owned();
            msg.append(e.as_str());
            proof {
                assert(msg@.take("unable to parse base base url: "@.len() as int) =~= (
                "unable to parse base base url: "@));
            }
            Err(Error::new(ErrorCode::Parse, Some(msg)))
        },
    }
}

/// Builds the one outbound request for an endpoint: a POST to the
/// composed URL, with the account's credentials for basic
/// authentication, the fixed `application/json` content type, and the
/// given body. Fails with a `Parse` error exactly when the account's
/// base URL does not parse or a component exceeds the machine limit of
/// [`url_fits`].
pub fn compose_request(account: &Account, endpoint: &str, body: String) -> (r: Result<
    HttpRequest,
    Error,
>)
    ensures
        r is Ok <==> url_parses(account.base_url@) && url_fits(
            account.base_url@,
            "sms/"@ + endpoint@,
        ),
        r is Ok ==> {
            &&& r->Ok_0.method@ == "POST"@
            &&& r->Ok_0.url@ == url_with_path(account.base_url@, "sms/"@ + endpoint@)
            &&& r->Ok_0.username@ == account.username@
            &&& r->Ok_0.password@ == account.password@
            &&& r->Ok_0.content_type@ == "application/json"@
            &&& r->Ok_0.body@ == body@
        },
        r is Err ==> r->Err_0.code() == ErrorCode::Parse && r->Err_0.msg_view() is Some,
{
    match compose_url(account, endpoint) {
        Ok(url) => Ok(
            HttpRequest {
                method: "POST".to_owned(),
                url,
                username: account.username.clone(),
                password: account.password.clone(),
                content_type: "application/json".to_owned(),
                body,
            },
        ),
        Err(e) => Err(e),
    }
}

/// What the transport reported for one attempted call.
pub enum TransportOutcome {
    /// The call completed with an HTTP status; the response body text is
    /// given when it could be read.
    Completed { status: u16, body: Option<String> },
    /// The call failed below HTTP (DNS, connect, timeout, TLS, ...),
    /// with the transport's message.
    Failed { message: String },
}

/// A completed call whose HTTP status was in the success range.
#[derive(Debug)]
pub struct Response {
    pub status: u16,
    pub body: Option<String>,
}

impl Response {
    /// A success status: any 2xx.
    pub open spec fn wf(&self) -> bool {
        200 <= self.status < 300
    }
}

/// Classifies what the transport reported:
/// a 2xx status is a success and wraps the response;
/// a 401 status is `AccessDenied`, with no detail;
/// any other non-2xx status is a `Parse` error whose detail is the body
/// text, or a fixed fallback when no body could be read;
/// a transport-level failure is `Other` with the transport's message.
pub fn classify_outcome(outcome: TransportOutcome) -> (r: Result<Response, Error>)
    ensures
        match outcome {
            TransportOutcome::Completed { status, body } => {
                if 200 <= status < 300 {
                    &&& r is Ok
                    &&& r->Ok_0.status == status
                    &&& r->Ok_0.body == body
                    &&& r->Ok_0.wf()
                } else if status == 401 {
                    &&& r is Err
                    &&& r->Err_0.code() == ErrorCode::AccessDenied
                    &&& r->Err_0.msg_view() is None
                } else {
                    &&& r is Err
                    &&& r->Err_0.code() == ErrorCode::Parse
                    &&& r->Err_0.msg_view() == Some(
                        match body {
                            Some(b) => b@,
                            None => "no text body"@,
                        },
                    )
                }
            },
            TransportOutcome::Failed { message } => {
                &&& r is Err
                &&& r->Err_0.code() == ErrorCode::Other
                &&& r->Err_0.msg_view() == Some(message@)
            },
        },
{
    match outcome {
        TransportOutcome::Completed { status, body } => {
            if 200 <= status && status < 300 {
                Ok(Response { status, body })
            } else if status == 401 {
                Err(Error::new(ErrorCode::AccessDenied, None))
            } else {
                let text = match body {
                    Some(b) => b,
                    None => "no text body".to_owned(),
                };
                Err(Error::new(ErrorCode::Parse, Some(text)))
            }
        },
        TransportOutcome::Failed { message } => Err(
            Error::new(ErrorCode::Other, Some(message)),
        ),
    }
}

} // verus!
