use crate::client::{
    del_cache, get_cache, set_cache, DelRequest, DelResponse, GetRequest, GetResponse, SetRequest,
    SetResponse,
};
use crate::form::{
    del_form, del_form_of, form_pairs, set_form, set_form_of, DelFormKey, FormError, FormKey,
    FormKeyView,
};
use crate::reply::{
    del_key, del_reply, get_key, lookup_reply, ping, pong, set_key, set_reply, Handled,
    HandledView, HttpReply, Rejection, ReplyView,
};
use crate::route::{
    declares_form, decode_segment, header_view, is_form, key_segment, percent_decoded, place,
    place_of, reads, Method, Place,
};
use vstd::prelude::*;
use vstd::slice::slice_subrange;

verus! {

/// An HTTP request that reached one of the gateway's four routes, with its
/// input already decoded.
#[derive(Debug, PartialEq, Eq)]
pub enum Request {
    /// `GET /ping`
    Ping,
    /// `GET /get/{key}`
    Lookup(String),
    /// `POST /set`
    Store(FormKey),
    /// `POST /del`
    Delete(DelFormKey),
}

/// A [`Request`] as a mathematical value.
pub enum RequestView {
    Ping,
    Lookup { key: Seq<char> },
    Store { form: FormKeyView },
    Delete { key: Seq<char> },
}

impl View for Request {
    type V = RequestView;

    open spec fn view(&self) -> RequestView {
        match *self {
            Request::Ping => RequestView::Ping,
            Request::Lookup(key) => RequestView::Lookup { key: key@ },
            Request::Store(form) => RequestView::Store { form: form@ },
            Request::Delete(form) => RequestView::Delete { key: form@ },
        }
    }
}

/// One call of the cache service.
#[derive(Debug, PartialEq, Eq)]
pub enum Call {
    Lookup(GetRequest),
    Store(SetRequest),
    Delete(DelRequest),
}

/// A [`Call`] as a mathematical value.
pub enum CallView {
    Lookup { key: Seq<char> },
    Store { key: Seq<char>, value: Seq<char>, ttl: Option<i32> },
    Delete { key: Seq<char> },
}

impl View for Call {
    type V = CallView;

    open spec fn view(&self) -> CallView {
        match *self {
            Call::Lookup(request) => CallView::Lookup { key: request.key@ },
            Call::Store(request) => CallView::Store {
                key: request.key@,
                value: request.value@,
                ttl: request.ttl,
            },
            Call::Delete(request) => CallView::Delete { key: request.key@ },
        }
    }
}

/// What the gateway does first with a request: answer at once, or call the
/// cache service.
#[derive(Debug, PartialEq, Eq)]
pub enum Step {
    Reply(HttpReply),
    Call(Call),
}

/// A [`Step`] as a mathematical value.
pub enum StepView {
    Reply(ReplyView),
    Call(CallView),
}

impl View for Step {
    type V = StepView;

    open spec fn view(&self) -> StepView {
        match *self {
            Step::Reply(reply) => StepView::Reply(reply@),
            Step::Call(call) => StepView::Call(call@),
        }
    }
}

/// How one call of the cache service went: its answer, or the transport's
/// description of what failed.
#[derive(Debug, PartialEq, Eq)]
pub enum Outcome {
    Lookup(Result<GetResponse, String>),
    Store(Result<SetResponse, String>),
    Delete(Result<DelResponse, String>),
}

/// An [`Outcome`] as a mathematical value: for a lookup the value found, for
/// a store or a delete the success flag of the answer.
pub enum OutcomeView {
    Lookup(Result<Option<Seq<char>>, Seq<char>>),
    Store(Result<bool, Seq<char>>),
    Delete(Result<bool, Seq<char>>),
}

impl View for Outcome {
    type V = OutcomeView;

    open spec fn view(&self) -> OutcomeView {
        match *self {
            Outcome::Lookup(Ok(response)) => OutcomeView::Lookup(
                Ok(
                    match response.value {
                        Some(value) => Some(value@),
                        None => None,
                    },
                ),
            ),
            Outcome::Lookup(Err(detail)) => OutcomeView::Lookup(Err(detail@)),
            Outcome::Store(Ok(response)) => OutcomeView::Store(Ok(response.success)),
            Outcome::Store(Err(detail)) => OutcomeView::Store(Err(detail@)),
            Outcome::Delete(Ok(response)) => OutcomeView::Delete(Ok(response.success)),
            Outcome::Delete(Err(detail)) => OutcomeView::Delete(Err(detail@)),
        }
    }
}

/// The first step for each request. A probe is answered at once. Each of
/// the others becomes one call that carries the request's key, value and
/// time-to-live unchanged.
pub open spec fn first_step(request: RequestView) -> StepView {
    match request {
        RequestView::Ping => StepView::Reply(pong()),
        RequestView::Lookup { key } => StepView::Call(CallView::Lookup { key }),
        RequestView::Store { form } => StepView::Call(
            CallView::Store { key: form.key, value: form.value, ttl: form.ttl },
        ),
        RequestView::Delete { key } => StepView::Call(CallView::Delete { key }),
    }
}

/// The line to log after a store or a delete: the transport's description
/// of a failed call, `refusal` where the service said that it did not do
/// the work, none where it did.
pub open spec fn change_log(outcome: Result<bool, Seq<char>>, refusal: Seq<char>) -> Option<
    Seq<char>,
> {
    match outcome {
        Ok(true) => None,
        Ok(false) => Some(refusal),
        Err(detail) => Some(detail),
    }
}

/// The answer, and the line to log, for each outcome of a call.
///
/// A lookup answers with the value found; a failed lookup answers as an
/// absent key does. A store and a delete answer the same whatever came
/// back. No failure of the cache service reaches the HTTP client as an
/// error of the gateway.
pub open spec fn last_step(outcome: OutcomeView) -> HandledView {
    match outcome {
        OutcomeView::Lookup(Ok(found)) => HandledView { reply: lookup_reply(found), log: None },
        OutcomeView::Lookup(Err(detail)) => HandledView {
            reply: lookup_reply(None),
            log: Some(detail),
        },
        OutcomeView::Store(stored) => HandledView {
            reply: set_reply(),
            log: change_log(stored, "set failed"@),
        },
        OutcomeView::Delete(deleted) => HandledView {
            reply: del_reply(),
            log: change_log(deleted, "del failed"@),
        },
    }
}

/// Takes a request to its first step: the answer to a probe, or the one
/// call of the cache service that the request asks for.
pub fn begin(request: Request) -> (step: Step)
    ensures
        step@ == first_step(request@),
{
    match request {
        Request::Ping => Step::Reply(ping()),
        Request::Lookup(key) => Step::Call(Call::Lookup(GetRequest::new(key))),
        Request::Store(form) => Step::Call(
            Call::Store(SetRequest::new(form.key, form.value, form.ttl)),
        ),
        Request::Delete(form) => Step::Call(Call::Delete(DelRequest::new(form.key))),
    }
}

/// Takes the outcome of the call to the answer for the HTTP client, and to
/// the line to log where the call failed.
pub fn finish(outcome: Outcome) -> (done: Handled)
    ensures
        done@ == last_step(outcome@),
{
    match outcome {
        Outcome::Lookup(result) => get_key(get_cache(result)),
        Outcome::Store(result) => set_key(set_cache(result)),
        Outcome::Delete(result) => del_key(del_cache(result)),
    }
}

/// What an HTTP request is to the gateway.
#[derive(Debug, PartialEq, Eq)]
pub enum Received {
    /// One of the four requests that the gateway serves.
    Serve(Request),
    /// A request that is turned away.
    Reject(Rejection),
}

/// A [`Received`] as a mathematical value.
pub enum ReceivedView {
    Serve(RequestView),
    Reject(Rejection),
}

impl View for Received {
    type V = ReceivedView;

    open spec fn view(&self) -> ReceivedView {
        match *self {
            Received::Serve(request) => ReceivedView::Serve(request@),
            Received::Reject(rejection) => ReceivedView::Reject(rejection),
        }
    }
}

/// A lookup with the key that the path held, once decoded.
pub open spec fn lookup_of(key: Option<Seq<char>>) -> ReceivedView {
    match key {
        Some(key) => ReceivedView::Serve(RequestView::Lookup { key }),
        None => ReceivedView::Reject(Rejection::BadKey),
    }
}

/// A store with the form that the body held, once decoded.
pub open spec fn store_of(decoded: Result<FormKeyView, FormError>) -> ReceivedView {
    match decoded {
        Ok(form) => ReceivedView::Serve(RequestView::Store { form }),
        Err(error) => ReceivedView::Reject(Rejection::BadForm(error)),
    }
}

/// A delete with the form that the body held, once decoded.
pub open spec fn delete_of(decoded: Result<Seq<char>, FormError>) -> ReceivedView {
    match decoded {
        Ok(key) => ReceivedView::Serve(RequestView::Delete { key }),
        Err(error) => ReceivedView::Reject(Rejection::BadForm(error)),
    }
}

/// What a request with this method, path, declared media type and body is
/// to the gateway.
///
/// | path         | method          | request |
/// |--------------|-----------------|---------|
/// | `/ping`      | `GET`           | probe   |
/// | `/get/{key}` | `GET`           | lookup  |
/// | `/set`       | `POST`          | store   |
/// | `/del`       | `POST`          | delete  |
///
/// Every other method on one of these paths is a method not allowed; every
/// other path is not found. The body counts only where a form is posted,
/// and is read only where the request declares it as a URL-encoded form.
pub open spec fn received_of(
    method: Method,
    path: Seq<u8>,
    content_type: Option<Seq<u8>>,
    body: Seq<u8>,
) -> ReceivedView {
    match place_of(path) {
        Place::Nowhere => ReceivedView::Reject(Rejection::NotFound),
        Place::Ping => if reads(method) {
            ReceivedView::Serve(RequestView::Ping)
        } else {
            ReceivedView::Reject(Rejection::MethodNotAllowed)
        },
        Place::Key => if reads(method) {
            lookup_of(percent_decoded(key_segment(path)))
        } else {
            ReceivedView::Reject(Rejection::MethodNotAllowed)
        },
        Place::SetForm => if method != Method::Post {
            ReceivedView::Reject(Rejection::MethodNotAllowed)
        } else if declares_form(content_type) {
            store_of(set_form_of(form_pairs(body)))
        } else {
            ReceivedView::Reject(Rejection::UnsupportedMediaType)
        },
        Place::DelForm => if method != Method::Post {
            ReceivedView::Reject(Rejection::MethodNotAllowed)
        } else if declares_form(content_type) {
            delete_of(del_form_of(form_pairs(body)))
        } else {
            ReceivedView::Reject(Rejection::UnsupportedMediaType)
        },
    }
}

/// Admits a lookup whose key was decoded, and turns away one whose key
/// could not be.
pub fn admit_lookup(key: Option<String>) -> (received: Received)
    ensures
        received@ == lookup_of(crate::route::text_view(key)),
{
    match key {
        Some(key) => Received::Serve(Request::Lookup(key)),
        None => Received::Reject(Rejection::BadKey),
    }
}

/// Admits a store whose form was decoded, and turns away one whose body
/// was not the form.
pub fn admit_store(decoded: Result<FormKey, FormError>) -> (received: Received)
    ensures
        received@ == store_of(crate::form::set_form_view(decoded)),
{
    match decoded {
        Ok(form) => Received::Serve(Request::Store(form)),
        Err(error) => Received::Reject(Rejection::BadForm(error)),
    }
}

/// Admits a delete whose form was decoded, and turns away one whose body
/// was not the form.
pub fn admit_delete(decoded: Result<DelFormKey, FormError>) -> (received: Received)
    ensures
        received@ == delete_of(crate::form::del_form_view(decoded)),
{
    match decoded {
        Ok(form) => Received::Serve(Request::Delete(form)),
        Err(error) => Received::Reject(Rejection::BadForm(error)),
    }
}

/// Reads an HTTP request: finds its place among the gateway's paths, holds
/// the method against what that place offers, and decodes the key or the
/// form that the request carries. `content_type` is the value of the
/// request's `Content-Type` header, where it has one. The key of a lookup is
/// never empty.
pub fn receive(method: Method, path: &[u8], content_type: Option<&[u8]>, body: &[u8]) -> (received:
    Received)
    ensures
        received@ == received_of(method, path@, header_view(content_type), body@),
        match received@ {
            ReceivedView::Serve(RequestView::Lookup { key }) => key.len() > 0,
            _ => true,
        },
{
    let reading = match method {
        Method::Get => true,
        _ => false,
    };
    let posting = match method {
        Method::Post => true,
        _ => false,
    };
    match place(path) {
        Place::Nowhere => Received::Reject(Rejection::NotFound),
        Place::Ping => {
            if reading {
                Received::Serve(Request::Ping)
            } else {
                Received::Reject(Rejection::MethodNotAllowed)
            }
        },
        Place::Key => {
            if reading {
                admit_lookup(decode_segment(slice_subrange(path, 5, path.len())))
            } else {
                Received::Reject(Rejection::MethodNotAllowed)
            }
        },
        Place::SetForm => {
            if !posting {
                Received::Reject(Rejection::MethodNotAllowed)
            } else if is_form(content_type) {
                admit_store(set_form(body))
            } else {
                Received::Reject(Rejection::UnsupportedMediaType)
            }
        },
        Place::DelForm => {
            if !posting {
                Received::Reject(Rejection::MethodNotAllowed)
            } else if is_form(content_type) {
                admit_delete(del_form(body))
            } else {
                Received::Reject(Rejection::UnsupportedMediaType)
            }
        },
    }
}

} // verus!
