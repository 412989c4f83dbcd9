use crate::client::ClientError;
use crate::form::FormError;
use vstd::prelude::*;
use vstd::string::*;

verus! {

/// Status of every answer but a failed lookup.
pub const STATUS_OK: u16 = 200;

/// Status of a lookup that found nothing.
pub const STATUS_NOT_FOUND: u16 = 404;

/// One HTTP answer: a status code and a body.
#[derive(Debug, PartialEq, Eq)]
pub struct HttpReply {
    pub status: u16,
    pub body: String,
}

/// An [`HttpReply`] as a mathematical value.
pub struct ReplyView {
    pub status: u16,
    pub body: Seq<char>,
}

impl View for HttpReply {
    type V = ReplyView;

    open spec fn view(&self) -> ReplyView {
        ReplyView { status: self.status, body: self.body@ }
    }
}

/// An answer together with the line, if any, that the program should log.
/// The line never reaches the HTTP client.
#[derive(Debug, PartialEq, Eq)]
pub struct Handled {
    pub reply: HttpReply,
    pub log: Option<String>,
}

/// A [`Handled`] as a mathematical value.
pub struct HandledView {
    pub reply: ReplyView,
    pub log: Option<Seq<char>>,
}

impl View for Handled {
    type V = HandledView;

    open spec fn view(&self) -> HandledView {
        HandledView {
            reply: self.reply@,
            log: match self.log {
                Some(line) => Some(line@),
                None => None,
            },
        }
    }
}

/// The answer to a liveness probe.
pub open spec fn pong() -> ReplyView {
    ReplyView { status: 200, body: "pong"@ }
}

/// The answer to a lookup, given what the cache service holds for the key.
pub open spec fn lookup_reply(found: Option<Seq<char>>) -> ReplyView {
    match found {
        Some(value) => ReplyView { status: 200, body: value },
        None => ReplyView { status: 404, body: "not found"@ },
    }
}

/// The answer to every store request.
pub open spec fn set_reply() -> ReplyView {
    ReplyView { status: 200, body: "set ok"@ }
}

/// The answer to every delete request.
pub open spec fn del_reply() -> ReplyView {
    ReplyView { status: 200, body: "del ok"@ }
}

/// The line to log for a failed call: the transport's own description, or
/// `refusal` where the service answered that it did not do the work.
pub open spec fn failure_line(error: ClientError, refusal: Seq<char>) -> Seq<char> {
    match error {
        ClientError::Transport(detail) => detail@,
        ClientError::Refused => refusal,
    }
}

/// What a lookup yields for the HTTP client: a failure counts as an absence.
pub open spec fn found_value(found: Result<Option<String>, ClientError>) -> Option<Seq<char>> {
    match found {
        Ok(Some(value)) => Some(value@),
        _ => None,
    }
}

/// The line to log after a call: none on success.
pub open spec fn log_line<T>(result: Result<T, ClientError>, refusal: Seq<char>) -> Option<
    Seq<char>,
> {
    match result {
        Ok(_) => None,
        Err(error) => Some(failure_line(error, refusal)),
    }
}

fn failure_text(error: ClientError, refusal: &str) -> (line: String)
    ensures
        line@ == failure_line(error, refusal@),
{
    match error {
        ClientError::Transport(detail) => detail,
        ClientError::Refused => String::from_str(refusal),
    }
}

/// Answers a liveness probe: always 200 with the body `pong`. It takes no
/// input, so nothing that happens to the cache service can change it.
pub fn ping() -> (reply: HttpReply)
    ensures
        reply@ == pong(),
{
    HttpReply { status: STATUS_OK, body: String::from_str("pong") }
}

/// Answers a lookup from what the client reported. A value gives 200 with
/// the value as body. An absence and a failed call both give 404 with the
/// body `not found`; only the failed call leaves a line to log.
pub fn get_key(found: Result<Option<String>, ClientError>) -> (done: Handled)
    ensures
        done@.reply == lookup_reply(found_value(found)),
        done@.log == log_line(found, "get failed"@),
{
    match found {
        Ok(Some(value)) => Handled {
            reply: HttpReply { status: STATUS_OK, body: value },
            log: None,
        },
        Ok(None) => Handled { reply: not_found(), log: None },
        Err(error) => Handled {
            reply: not_found(),
            log: Some(failure_text(error, "get failed")),
        },
    }
}

fn not_found() -> (reply: HttpReply)
    ensures
        reply@ == lookup_reply(None),
{
    HttpReply { status: STATUS_NOT_FOUND, body: String::from_str("not found") }
}

/// Answers a store request: always 200 with the body `set ok`. A failure of
/// the call is not shown to the HTTP client; it leaves a line to log.
pub fn set_key(stored: Result<(), ClientError>) -> (done: Handled)
    ensures
        done@.reply == set_reply(),
        done@.log == log_line(stored, "set failed"@),
{
    let log = match stored {
        Ok(_) => None,
        Err(error) => Some(failure_text(error, "set failed")),
    };
    Handled { reply: HttpReply { status: STATUS_OK, body: String::from_str("set ok") }, log }
}

/// Answers a delete request: always 200 with the body `del ok`. A failure of
/// the call is not shown to the HTTP client; it leaves a line to log.
pub fn del_key(deleted: Result<(), ClientError>) -> (done: Handled)
    ensures
        done@.reply == del_reply(),
        done@.log == log_line(deleted, "del failed"@),
{
    let log = match deleted {
        Ok(_) => None,
        Err(error) => Some(failure_text(error, "del failed")),
    };
    Handled { reply: HttpReply { status: STATUS_OK, body: String::from_str("del ok") }, log }
}

/// Why a request is turned away before anything is done for it.
#[derive(Clone, Copy, Debug, PartialEq, Eq, Structural)]
pub enum Rejection {
    /// The path is none of the gateway's.
    NotFound,
    /// The path is one of the gateway's, the method is not the one it has
    /// there.
    MethodNotAllowed,
    /// The key in the path is not UTF-8 once percent-decoded.
    BadKey,
    /// A body is posted that is not declared as a URL-encoded form.
    UnsupportedMediaType,
    /// The body is not the form that the path asks for.
    BadForm(FormError),
}

/// The status with which a request is turned away.
pub open spec fn rejection_status(rejection: Rejection) -> u16 {
    match rejection {
        Rejection::NotFound => 404,
        Rejection::MethodNotAllowed => 405,
        Rejection::BadKey => 400,
        Rejection::UnsupportedMediaType => 415,
        Rejection::BadForm(_) => 422,
    }
}

/// The body with which a request is turned away: empty where the status
/// says it all, else one line on what is wrong with the request.
pub open spec fn rejection_body(rejection: Rejection) -> Seq<char> {
    match rejection {
        Rejection::NotFound => Seq::empty(),
        Rejection::MethodNotAllowed => Seq::empty(),
        Rejection::BadKey => "Invalid URL: Invalid UTF-8 in `keys`"@,
        Rejection::UnsupportedMediaType =>
            "Form requests must have `Content-Type: application/x-www-form-urlencoded`"@,
        Rejection::BadForm(_) => "Failed to deserialize form body"@,
    }
}

/// Answers a request that is turned away. The status is always a client
/// error: the fault is in the request, never in the gateway or behind it.
pub fn rejection_reply(rejection: Rejection) -> (reply: HttpReply)
    ensures
        reply@ == (ReplyView {
            status: rejection_status(rejection),
            body: rejection_body(rejection),
        }),
        400 <= reply.status < 500,
{
    match rejection {
        Rejection::NotFound => HttpReply { status: 404, body: String::new() },
        Rejection::MethodNotAllowed => HttpReply { status: 405, body: String::new() },
        Rejection::BadKey => HttpReply {
            status: 400,
            body: String::from_str("Invalid URL: Invalid UTF-8 in `keys`"),
        },
        Rejection::UnsupportedMediaType => HttpReply {
            status: 415,
            body: String::from_str(
                "Form requests must have `Content-Type: application/x-www-form-urlencoded`",
            ),
        },
        Rejection::BadForm(_) => HttpReply {
            status: 422,
            body: String::from_str("Failed to deserialize form body"),
        },
    }
}

} // verus!
