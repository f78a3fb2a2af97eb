//! The client side of the peer protocol: where requests go, how they are
//! authenticated, and how failures are reported.
use vstd::prelude::*;
use crate::daemon::{bearer_value, STATUS_UNAUTHORIZED, STATUS_SERVICE_UNAVAILABLE,
    STATUS_INTERNAL_SERVER_ERROR};
use crate::error::{AppError, AppResult};
use crate::text::{eq_ignore_ascii_case, str_eq_ignore_ascii_case, decimal, decimal_string, join2,
    join3, join4};
use crate::types::ApiStatusResponse;

verus! {

/// Seconds a request may take.
pub const DEFAULT_TIMEOUT_SECS: u64 = 5;

/// The scheme used when none is asked for.
pub const DEFAULT_SCHEME: &'static str = "http";

/// The scheme a requested one stands for: `http` or `https` in any ASCII
/// case; anything else is refused with the message.
pub open spec fn scheme_outcome(scheme: Seq<char>) -> Result<Seq<char>, Seq<char>> {
    if eq_ignore_ascii_case(scheme, "http"@) {
        Ok("http"@)
    } else if eq_ignore_ascii_case(scheme, "https"@) {
        Ok("https"@)
    } else {
        Err("invalid transport scheme '"@ + scheme + "'; expected 'http' or 'https'"@)
    }
}

/// Normalizes a transport scheme.
pub fn normalize_scheme(scheme: &str) -> (r: AppResult<String>)
    ensures
        match scheme_outcome(scheme@) {
            Ok(s) => r matches Ok(x) && x@ == s,
            Err(m) => r matches Err(AppError::Transport(x)) && x@ == m,
        },
{
    if str_eq_ignore_ascii_case(scheme, "http") {
        return Ok(String::from_str("http"));
    }
    if str_eq_ignore_ascii_case(scheme, "https") {
        return Ok(String::from_str("https"));
    }
    Err(
        AppError::Transport(
            join3("invalid transport scheme '", scheme, "'; expected 'http' or 'https'"),
        ),
    )
}

/// Where a peer's daemon is and the token to present to it. It has no
/// `Debug`, so the token is never printed.
#[derive(Clone)]
pub struct TransportClient {
    base_url: String,
    token: String,
}

impl TransportClient {
    /// The URL every request path is appended to.
    pub closed spec fn base(&self) -> Seq<char> {
        self.base_url@
    }

    /// The token presented with every request.
    pub closed spec fn token_text(&self) -> Seq<char> {
        self.token@
    }

    /// A client for the daemon at `address` (an `IP:PORT` text), over the
    /// scheme asked for or `http`.
    pub fn new(address: &str, token: String, scheme: Option<String>) -> (r: AppResult<Self>)
        ensures
            match scheme_outcome(
                match scheme {
                    Some(s) => s@,
                    None => DEFAULT_SCHEME@,
                },
            ) {
                Ok(s) => r matches Ok(c) && c.base() == s + "://"@ + address@ && c.token_text()
                    == token@,
                Err(m) => r matches Err(AppError::Transport(x)) && x@ == m,
            },
    {
        match scheme {
            Some(s) => Self::new_with_scheme(address, token, s.as_str()),
            None => Self::new_with_scheme(address, token, DEFAULT_SCHEME),
        }
    }

    /// A client for the daemon at `address` over `scheme`.
    pub fn new_with_scheme(address: &str, token: String, scheme: &str) -> (r: AppResult<Self>)
        ensures
            match scheme_outcome(scheme@) {
                Ok(s) => r matches Ok(c) && c.base() == s + "://"@ + address@ && c.token_text()
                    == token@,
                Err(m) => r matches Err(AppError::Transport(x)) && x@ == m,
            },
    {
        let normalized = normalize_scheme(scheme)?;
        Ok(Self { base_url: join3(normalized.as_str(), "://", address), token })
    }

    /// The URL requests go to, before the path.
    pub fn base_url(&self) -> (r: &str)
        ensures
            r@ == self.base(),
    {
        self.base_url.as_str()
    }

    /// The URL of the read endpoint.
    pub fn read_url(&self) -> (r: String)
        ensures
            r@ == self.base() + "/clipboard/read"@,
    {
        join2(self.base_url.as_str(), "/clipboard/read")
    }

    /// The URL of the write endpoint.
    pub fn write_url(&self) -> (r: String)
        ensures
            r@ == self.base() + "/clipboard/write"@,
    {
        join2(self.base_url.as_str(), "/clipboard/write")
    }

    /// The `Authorization` header value sent with every request.
    pub fn authorization_value(&self) -> (r: String)
        ensures
            r@ == bearer_value(self.token_text()),
    {
        join2("Bearer ", self.token.as_str())
    }
}

/// What went wrong with a request that got no response, as the HTTP client
/// reports it.
#[derive(Debug, Clone)]
pub struct RequestFailure {
    pub timed_out: bool,
    pub connect_failed: bool,
    pub detail: String,
}

/// The error for a request that got no response: a timeout, an unreachable
/// peer, or another transport failure.
pub fn map_request_error(failure: RequestFailure) -> (r: AppError)
    ensures
        failure.timed_out ==> (r matches AppError::TransportTimeout(m) && m@
            == "request exceeded timeout"@),
        !failure.timed_out && failure.connect_failed ==> (r matches AppError::TransportUnreachable(
            m,
        ) && m@ == "connection failed: "@ + failure.detail@),
        !failure.timed_out && !failure.connect_failed ==> (r matches AppError::Transport(m) && m@
            == "request failed: "@ + failure.detail@),
{
    if failure.timed_out {
        return AppError::TransportTimeout(String::from_str("request exceeded timeout"));
    }
    if failure.connect_failed {
        return AppError::TransportUnreachable(
            join2("connection failed: ", failure.detail.as_str()),
        );
    }
    AppError::Transport(join2("request failed: ", failure.detail.as_str()))
}

/// Whether an HTTP status is a success (2xx).
pub fn is_success_status(status: u16) -> (r: bool)
    ensures
        r == (200 <= status && status <= 299),
{
    200 <= status && status <= 299
}

/// The message for a failure status whose body carried none.
pub open spec fn fallback_text(status: u16) -> Seq<char> {
    if status == STATUS_UNAUTHORIZED {
        "authentication failed"@
    } else if status == STATUS_SERVICE_UNAVAILABLE {
        "remote clipboard is unavailable"@
    } else if status == STATUS_INTERNAL_SERVER_ERROR {
        "remote daemon encountered an internal error"@
    } else {
        "unexpected http status "@ + decimal(status as nat)
    }
}

/// Computes `fallback_text`.
pub fn fallback_status_message(status: u16) -> (r: String)
    ensures
        r@ == fallback_text(status),
{
    if status == STATUS_UNAUTHORIZED {
        String::from_str("authentication failed")
    } else if status == STATUS_SERVICE_UNAVAILABLE {
        String::from_str("remote clipboard is unavailable")
    } else if status == STATUS_INTERNAL_SERVER_ERROR {
        String::from_str("remote daemon encountered an internal error")
    } else {
        let n = decimal_string(status as u64);
        join2("unexpected http status ", n.as_str())
    }
}

/// How a failure response is reported.
pub enum ResponseErrorKind {
    /// The peer refused the token.
    Auth,
    /// The peer's clipboard failed.
    Remote,
    /// Any other status.
    Other,
}

/// The kind of error a failure status is reported as.
pub open spec fn response_error_kind(status: u16) -> ResponseErrorKind {
    if status == STATUS_UNAUTHORIZED {
        ResponseErrorKind::Auth
    } else if status == STATUS_SERVICE_UNAVAILABLE || status == STATUS_INTERNAL_SERVER_ERROR {
        ResponseErrorKind::Remote
    } else {
        ResponseErrorKind::Other
    }
}

/// The message of a failure response: the one its body carried, or the
/// status's fallback.
pub open spec fn response_message(status: u16, body_error: Option<Seq<char>>) -> Seq<char> {
    match body_error {
        Some(m) => m,
        None => fallback_text(status),
    }
}

/// `e` reports a failure response with this status and body message.
pub open spec fn reports_response(e: AppError, status: u16, body_error: Option<Seq<char>>) -> bool {
    let m = response_message(status, body_error);
    match response_error_kind(status) {
        ResponseErrorKind::Auth => e matches AppError::TransportAuth(x) && x@ == m,
        ResponseErrorKind::Remote => e matches AppError::RemoteFailure(x) && x@ == m,
        ResponseErrorKind::Other => e matches AppError::Transport(x) && x@
            == "remote request failed with status "@ + decimal(status as nat) + ": "@ + m,
    }
}

/// The error for a failure response, given its status and the `error` its
/// body carried, if the body was a failure body.
pub fn map_error_response(status: u16, body_error: Option<String>) -> (r: AppError)
    ensures
        reports_response(
            r,
            status,
            match body_error {
                Some(m) => Some(m@),
                None => None,
            },
        ),
{
    let message = match body_error {
        Some(m) => m,
        None => fallback_status_message(status),
    };
    if status == STATUS_UNAUTHORIZED {
        AppError::TransportAuth(message)
    } else if status == STATUS_SERVICE_UNAVAILABLE || status == STATUS_INTERNAL_SERVER_ERROR {
        AppError::RemoteFailure(message)
    } else {
        let n = decimal_string(status as u64);
        AppError::Transport(
            join4("remote request failed with status ", n.as_str(), ": ", message.as_str()),
        )
    }
}

/// The outcome of a write that the peer answered with a success status:
/// the body's `ok` decides, and a refusal carries its message.
pub fn write_response_outcome(payload: ApiStatusResponse) -> (r: AppResult<()>)
    ensures
        payload.ok ==> r is Ok,
        !payload.ok ==> (r matches Err(AppError::RemoteFailure(m)) && m@ == payload.message@),
{
    if payload.ok {
        Ok(())
    } else {
        Err(AppError::RemoteFailure(payload.message))
    }
}

/// The error for a success response whose body could not be decoded.
pub fn decode_failure(is_read: bool, detail: &str) -> (r: AppError)
    ensures
        is_read ==> (r matches AppError::Transport(m) && m@
            == "failed to decode clipboard read response: "@ + detail@),
        !is_read ==> (r matches AppError::Transport(m) && m@
            == "failed to decode clipboard write response: "@ + detail@),
{
    if is_read {
        AppError::Transport(join2("failed to decode clipboard read response: ", detail))
    } else {
        AppError::Transport(join2("failed to decode clipboard write response: ", detail))
    }
}

/// The error for an HTTP client that could not be built.
pub fn client_build_failure(detail: &str) -> (r: AppError)
    ensures
        r matches AppError::Transport(m) && m@ == "failed to build http client: "@ + detail@,
{
    AppError::Transport(join2("failed to build http client: ", detail))
}

} // verus!

verus! {

/// A clipboard failure the daemon answers a request with reaches the client
/// as a remote failure carrying the daemon's message.
pub proof fn lemma_daemon_clipboard_failure_seen_by_client(
    e: AppError,
    default_message: Seq<char>,
    seen: AppError,
)
    requires
        reports_response(
            seen,
            crate::daemon::error_parts(e, default_message).0,
            Some(crate::daemon::error_parts(e, default_message).1),
        ),
    ensures
        seen matches AppError::RemoteFailure(x) && x@ == crate::daemon::error_parts(
            e,
            default_message,
        ).1,
{
}

/// A request the daemon refuses for its `Authorization` header reaches the
/// client as an authentication failure carrying the daemon's reason.
pub proof fn lemma_auth_refusal_seen_by_client(
    header: Option<Seq<char>>,
    expected: Seq<char>,
    seen: AppError,
)
    requires
        crate::daemon::auth_outcome(header, expected) is Err,
        reports_response(
            seen,
            STATUS_UNAUTHORIZED,
            Some(crate::daemon::auth_outcome(header, expected)->Err_0),
        ),
    ensures
        seen matches AppError::TransportAuth(x) && x@ == crate::daemon::auth_outcome(
            header,
            expected,
        )->Err_0,
{
}

} // verus!

verus! {

/// Normalizing a scheme that was accepted gives it back unchanged: a
/// normalized scheme is its own normal form.
pub proof fn lemma_normalized_scheme_is_fixed(scheme: Seq<char>)
    requires
        scheme_outcome(scheme) is Ok,
    ensures
        scheme_outcome(scheme_outcome(scheme)->Ok_0) == scheme_outcome(scheme),
{
    reveal_strlit("http");
    reveal_strlit("https");
    assert(eq_ignore_ascii_case("http"@, "http"@));
    assert(eq_ignore_ascii_case("https"@, "https"@));
    assert(!eq_ignore_ascii_case("https"@, "http"@));
}

/// Schemes are accepted without regard to ASCII case: two schemes that
/// match ignoring ASCII case get the same verdict.
pub proof fn lemma_scheme_case_insensitive(a: Seq<char>, b: Seq<char>)
    requires
        eq_ignore_ascii_case(a, b),
    ensures
        scheme_outcome(a) is Ok <==> scheme_outcome(b) is Ok,
        scheme_outcome(a) is Ok ==> scheme_outcome(a) == scheme_outcome(b),
{
    crate::text::lemma_eq_ignore_ascii_case_same_class(a, b, "http"@);
    crate::text::lemma_eq_ignore_ascii_case_same_class(a, b, "https"@);
}

} // verus!
