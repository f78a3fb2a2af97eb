//! The daemon's request handling: bearer-token authentication, the replies
//! it sends for clipboard outcomes, and the route a write takes.
use vstd::prelude::*;
use vstd::string::StrSliceExecFns;
use crate::clipboard::ClipboardBackend;
use crate::error::{AppError, message_of};
use crate::text::{chars_of, join2, join3, join4, join5};
use crate::types::{ApiErrorResponse, ApiStatusResponse, ClipboardReadResponse};

verus! {

/// HTTP 200.
pub const STATUS_OK: u16 = 200;

/// HTTP 401.
pub const STATUS_UNAUTHORIZED: u16 = 401;

/// HTTP 500.
pub const STATUS_INTERNAL_SERVER_ERROR: u16 = 500;

/// HTTP 503.
pub const STATUS_SERVICE_UNAVAILABLE: u16 = 503;

/// Seconds a clipboard command run for a request may take.
pub const CLIPBOARD_HANDLER_TIMEOUT_SECS: u64 = 3;

/// The body of a reply.
#[derive(Debug, Clone)]
pub enum ReplyBody {
    Read(ClipboardReadResponse),
    Status(ApiStatusResponse),
    Error(ApiErrorResponse),
}

/// A reply: its HTTP status and its JSON body.
#[derive(Debug, Clone)]
pub struct Reply {
    pub status: u16,
    pub body: ReplyBody,
}

/// `r` is a failure reply with this status and message.
pub open spec fn is_error_reply(r: Reply, status: u16, message: Seq<char>) -> bool {
    &&& r.status == status
    &&& r.body matches ReplyBody::Error(b)
    &&& !b.ok
    &&& b.error@ == message
}

/// A failure reply.
pub fn json_error_response(status: u16, message: &str) -> (r: Reply)
    ensures
        is_error_reply(r, status, message@),
{
    Reply {
        status,
        body: ReplyBody::Error(ApiErrorResponse { ok: false, error: String::from_str(message) }),
    }
}

/// The value of an `Authorization` header that presents `token`.
pub open spec fn bearer_value(token: Seq<char>) -> Seq<char> {
    "Bearer "@ + token
}

/// The verdict on a request's `Authorization` header (absent, or not
/// visible ASCII, is `None`): it must be `Bearer ` followed by exactly the
/// expected token. A refusal carries its message.
pub open spec fn auth_outcome(header: Option<Seq<char>>, expected: Seq<char>) -> Result<(), Seq<char>> {
    match header {
        None => Err("missing authorization header"@),
        Some(h) => if !"Bearer "@.is_prefix_of(h) {
            Err("invalid authorization scheme"@)
        } else if h.skip("Bearer "@.len() as int) != expected {
            Err("invalid authentication token"@)
        } else {
            Ok(())
        },
    }
}

/// Calls `constant_time_eq::constant_time_eq`, which returns whether the two
/// byte strings are equal (unequal lengths give `false` at once); its time
/// does not depend on the contents.
#[verifier::external_body]
fn bytes_equal_constant_time(a: &[u8], b: &[u8]) -> (r: bool)
    ensures
        r == (a@ == b@),
{
    constant_time_eq::constant_time_eq(a, b)
}

/// Whether two texts are equal, compared in constant time over their bytes.
pub fn tokens_equal(expected: &str, provided: &str) -> (r: bool)
    ensures
        r == (expected@ == provided@),
{
    let a = expected.as_bytes();
    let b = provided.as_bytes();
    let r = bytes_equal_constant_time(a, b);
    proof {
        vstd::utf8::encode_utf8_decode_utf8(expected@);
        vstd::utf8::encode_utf8_decode_utf8(provided@);
    }
    r
}

/// Whether `s` starts with `Bearer `.
fn has_bearer_prefix(s: &str) -> (r: bool)
    ensures
        r == "Bearer "@.is_prefix_of(s@),
{
    let cs = chars_of(s);
    let p = chars_of("Bearer ");
    if cs.len() < p.len() {
        return false;
    }
    let mut i: usize = 0;
    while i < p.len()
        invariant
            cs@ == s@,
            p@ == "Bearer "@,
            p.len() <= cs.len(),
            i <= p.len(),
            forall|j: int| 0 <= j < i ==> p@[j] == s@[j],
        decreases p.len() - i,
    {
        if p[i] != cs[i] {
            return false;
        }
        i += 1;
    }
    assert(p@ =~= s@.subrange(0, p@.len() as int));
    true
}

/// Checks a request's `Authorization` header against the expected token.
/// A refusal is answered with 401 and says why.
pub fn validate_auth_header(auth_header: Option<&str>, expected_token: &str) -> (r: Result<(), Reply>)
    ensures
        match auth_outcome(
            match auth_header {
                Some(h) => Some(h@),
                None => None,
            },
            expected_token@,
        ) {
            Ok(()) => r is Ok,
            Err(m) => r matches Err(reply) && is_error_reply(reply, STATUS_UNAUTHORIZED, m),
        },
{
    let provided = match auth_header {
        Some(v) => v,
        None => {
            return Err(json_error_response(STATUS_UNAUTHORIZED, "missing authorization header"));
        },
    };
    if !has_bearer_prefix(provided) {
        return Err(json_error_response(STATUS_UNAUTHORIZED, "invalid authorization scheme"));
    }
    let p = chars_of("Bearer ");
    let n = provided.unicode_len();
    let token = provided.substring_char(p.len(), n);
    assert(token@ =~= provided@.skip("Bearer "@.len() as int));
    if !tokens_equal(expected_token, token) {
        return Err(json_error_response(STATUS_UNAUTHORIZED, "invalid authentication token"));
    }
    Ok(())
}

/// A client presenting the token the daemon expects is let through, and a
/// client presenting any other token is refused as presenting the wrong one.
pub proof fn lemma_bearer_value_accepted_iff_same_token(token: Seq<char>, expected: Seq<char>)
    ensures
        auth_outcome(Some(bearer_value(token)), expected) is Ok <==> token == expected,
        token != expected ==> auth_outcome(Some(bearer_value(token)), expected) == Err::<
            (),
            Seq<char>,
        >("invalid authentication token"@),
{
    let h = bearer_value(token);
    assert(h.subrange(0, "Bearer "@.len() as int) =~= "Bearer "@);
    assert(h.skip("Bearer "@.len() as int) =~= token);
}

/// The status and message a clipboard failure is answered with: an
/// unavailable backend is 503, a failed clipboard command is 500, each with
/// its own message; anything else is 500 with the default message followed
/// by the error's text.
pub open spec fn error_parts(e: AppError, default_message: Seq<char>) -> (u16, Seq<char>) {
    match e {
        AppError::ClipboardUnavailable(m) => (STATUS_SERVICE_UNAVAILABLE, m@),
        AppError::ClipboardRead(m) => (STATUS_INTERNAL_SERVER_ERROR, m@),
        AppError::ClipboardWrite(m) => (STATUS_INTERNAL_SERVER_ERROR, m@),
        other => (STATUS_INTERNAL_SERVER_ERROR, default_message + ": "@ + message_of(&other)),
    }
}

/// Computes `error_parts`.
pub fn clipboard_error_parts(err: AppError, default_message: &str) -> (r: (u16, String))
    ensures
        (r.0, r.1@) == error_parts(err, default_message@),
{
    match err {
        AppError::ClipboardUnavailable(m) => (STATUS_SERVICE_UNAVAILABLE, m),
        AppError::ClipboardRead(m) => (STATUS_INTERNAL_SERVER_ERROR, m),
        AppError::ClipboardWrite(m) => (STATUS_INTERNAL_SERVER_ERROR, m),
        other => {
            let text = other.message();
            (STATUS_INTERNAL_SERVER_ERROR, join3(default_message, ": ", text.as_str()))
        },
    }
}

/// The failure reply for a clipboard error.
pub fn clipboard_error_response(err: AppError, default_message: &str) -> (r: Reply)
    ensures
        is_error_reply(r, error_parts(err, default_message@).0, error_parts(err, default_message@).1),
{
    let (status, message) = clipboard_error_parts(err, default_message);
    json_error_response(status, message.as_str())
}

/// The reply to a read request, given the clipboard's text or the error
/// reading it.
pub fn read_reply(outcome: Result<String, AppError>) -> (r: Reply)
    ensures
        match outcome {
            Ok(text) => r.status == STATUS_OK && (r.body matches ReplyBody::Read(b) && b.text@
                == text@),
            Err(e) => is_error_reply(
                r,
                error_parts(e, "failed to read clipboard"@).0,
                error_parts(e, "failed to read clipboard"@).1,
            ),
        },
{
    match outcome {
        Ok(text) => Reply { status: STATUS_OK, body: ReplyBody::Read(ClipboardReadResponse { text }) },
        Err(e) => clipboard_error_response(e, "failed to read clipboard"),
    }
}

/// The reply to a write request, given the outcome of the write.
pub fn write_reply(outcome: Result<(), AppError>) -> (r: Reply)
    ensures
        match outcome {
            Ok(()) => r.status == STATUS_OK && (r.body matches ReplyBody::Status(b) && b.ok
                && b.message@ == "clipboard updated"@),
            Err(e) => is_error_reply(
                r,
                error_parts(e, "failed to write to clipboard"@).0,
                error_parts(e, "failed to write to clipboard"@).1,
            ),
        },
{
    match outcome {
        Ok(()) => Reply {
            status: STATUS_OK,
            body: ReplyBody::Status(
                ApiStatusResponse { ok: true, message: String::from_str("clipboard updated") },
            ),
        },
        Err(e) => clipboard_error_response(e, "failed to write to clipboard"),
    }
}

/// The error for a clipboard task that did not complete.
pub fn task_failure(is_read: bool, detail: &str) -> (r: AppError)
    ensures
        is_read ==> (r matches AppError::ClipboardRead(m) && m@ == "clipboard task failed: "@
            + detail@),
        !is_read ==> (r matches AppError::ClipboardWrite(m) && m@ == "clipboard task failed: "@
            + detail@),
{
    let m = join2("clipboard task failed: ", detail);
    if is_read {
        AppError::ClipboardRead(m)
    } else {
        AppError::ClipboardWrite(m)
    }
}

/// The way a write request is carried out.
#[derive(Debug, Clone, Copy, PartialEq, Eq, Structural)]
pub enum WriteRoute {
    /// Start a `wl-copy` process that owns the clipboard, keep it, and stop
    /// the one it replaces.
    WaylandOwner,
    /// Run the backend's write command to completion.
    Command,
}

/// Wayland writes keep a clipboard-owning process; the others run a command.
pub fn write_route(backend: ClipboardBackend) -> (r: WriteRoute)
    ensures
        (r == WriteRoute::WaylandOwner) == (backend == ClipboardBackend::LinuxWayland),
{
    match backend {
        ClipboardBackend::LinuxWayland => WriteRoute::WaylandOwner,
        _ => WriteRoute::Command,
    }
}

/// What the daemon prints at startup about its clipboard backend and the
/// display variables (`<unset>` for one that is not set).
pub fn backend_banner(backend: ClipboardBackend, display: Option<String>, wayland_display: Option<
    String,
>) -> (r: String)
    ensures
        r@ == "tailsnip clipboard backend: "@ + match backend {
            ClipboardBackend::MacOsPbcopy => "MacOsPbcopy"@,
            ClipboardBackend::LinuxWayland => "LinuxWayland"@,
            ClipboardBackend::LinuxXclip => "LinuxXclip"@,
        } + " (DISPLAY="@ + match display {
            Some(d) => d@,
            None => "<unset>"@,
        } + ", WAYLAND_DISPLAY="@ + match wayland_display {
            Some(w) => w@,
            None => "<unset>"@,
        } + ")"@,
{
    let name = backend.name();
    let d = match display {
        Some(d) => d,
        None => String::from_str("<unset>"),
    };
    let w = match wayland_display {
        Some(w) => w,
        None => String::from_str("<unset>"),
    };
    let mut s = join5(
        "tailsnip clipboard backend: ",
        name.as_str(),
        " (DISPLAY=",
        d.as_str(),
        ", WAYLAND_DISPLAY=",
    );
    s.append(w.as_str());
    s.append(")");
    s
}

/// The startup error for a listen address that could not be bound.
pub fn bind_failure(listen: &str, detail: &str) -> (r: AppError)
    ensures
        r matches AppError::DaemonStartup(m) && m@ == "failed to bind daemon to "@ + listen@ + ": "@
            + detail@,
{
    AppError::DaemonStartup(join4("failed to bind daemon to ", listen, ": ", detail))
}

/// The error for a server that stopped on its own.
pub fn server_failure(listen: &str, detail: &str) -> (r: AppError)
    ensures
        r matches AppError::DaemonRuntime(m) && m@ == "daemon server exited unexpectedly on "@
            + listen@ + ": "@ + detail@,
{
    AppError::DaemonRuntime(join4("daemon server exited unexpectedly on ", listen, ": ", detail))
}

} // verus!

verus! {

/// Keeps the newly started clipboard owner and hands back the one it
/// replaces, which the caller stops.
pub fn replace_owner<T>(slot: &mut Option<T>, new_owner: T) -> (r: Option<T>)
    ensures
        *final(slot) == Some(new_owner),
        r == *old(slot),
{
    let previous = slot.take();
    *slot = Some(new_owner);
    previous
}

/// One Wayland write, given the outcome of starting the new clipboard
/// owner: the reply to send and the replaced owner that the caller stops.
/// A started owner is kept in the slot; a failed start leaves the slot as it
/// was and stops nothing.
pub fn wayland_write_step<T>(slot: &mut Option<T>, started: Result<T, AppError>) -> (r: (
    Reply,
    Option<T>,
))
    ensures
        match started {
            Ok(owner) => {
                &&& *final(slot) == Some(owner)
                &&& r.1 == *old(slot)
                &&& r.0.status == STATUS_OK
                &&& r.0.body matches ReplyBody::Status(b) && b.ok && b.message@
                    == "clipboard updated"@
            },
            Err(e) => {
                &&& *final(slot) == *old(slot)
                &&& r.1 == None::<T>
                &&& is_error_reply(
                    r.0,
                    error_parts(e, "failed to write to clipboard"@).0,
                    error_parts(e, "failed to write to clipboard"@).1,
                )
            },
        },
{
    match started {
        Ok(owner) => {
            let replaced = replace_owner(slot, owner);
            (write_reply(Ok(())), replaced)
        },
        Err(e) => (write_reply(Err(e)), None),
    }
}

/// Empties the owner slot at shutdown and hands back the owner it held,
/// which the caller stops.
pub fn release_owner<T>(slot: &mut Option<T>) -> (r: Option<T>)
    ensures
        *final(slot) == None::<T>,
        r == *old(slot),
{
    slot.take()
}

} // verus!
