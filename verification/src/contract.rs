use crate::form::FormKeyView;
use crate::gateway::{
    first_step, last_step, received_of, CallView, OutcomeView, ReceivedView, RequestView, StepView,
};
use crate::reply::{del_reply, lookup_reply, pong, set_reply, Rejection, ReplyView};
use crate::route::{del_path, ping_path, set_path, Method};
use vstd::prelude::*;

verus! {

/// What the cache service holds for one key: the value, and the instant, in
/// seconds, from which the entry is gone. No instant means no expiry.
pub struct Entry {
    pub value: Seq<char>,
    pub expires: Option<int>,
}

/// What the cache service holds. The gateway never sees this: it is the
/// state that the service's answers are answers about.
pub type Store = Map<Seq<char>, Entry>;

/// Whether `key` can be read at the instant `now`.
pub open spec fn live(store: Store, key: Seq<char>, now: int) -> bool {
    store.dom().contains(key) && match store[key].expires {
        Some(instant) => now < instant,
        None => true,
    }
}

/// The value read for `key` at the instant `now`.
pub open spec fn lookup(store: Store, key: Seq<char>, now: int) -> Option<Seq<char>> {
    if live(store, key, now) {
        Some(store[key].value)
    } else {
        None
    }
}

/// The store after `value` was put under `key` at the instant `now`. What
/// was there before, value and expiry, is replaced. With a time-to-live of
/// one second or more the entry is gone from `now + ttl` on. What the
/// service makes of zero or of a negative time-to-live is its own affair:
/// the gateway passes it on, and no law below speaks of it.
pub open spec fn after_store(
    store: Store,
    key: Seq<char>,
    value: Seq<char>,
    ttl: Option<i32>,
    now: int,
) -> Store {
    store.insert(
        key,
        Entry {
            value,
            expires: match ttl {
                Some(seconds) => Some(now + seconds),
                None => None,
            },
        },
    )
}

/// The store after `key` was removed. Other keys are untouched, and an
/// absent key is no fault.
pub open spec fn after_delete(store: Store, key: Seq<char>) -> Store {
    store.remove(key)
}

/// A cache service that does what the gateway relies on, and is reached:
/// the store after `call` arrived at the instant `now`, and the outcome that
/// the gateway is handed.
pub open spec fn service(store: Store, call: CallView, now: int) -> (Store, OutcomeView) {
    match call {
        CallView::Lookup { key } => (store, OutcomeView::Lookup(Ok(lookup(store, key, now)))),
        CallView::Store { key, value, ttl } => (
            after_store(store, key, value, ttl, now),
            OutcomeView::Store(Ok(true)),
        ),
        CallView::Delete { key } => (after_delete(store, key), OutcomeView::Delete(Ok(true))),
    }
}

/// One request served from arrival to answer at the instant `now`, with
/// such a service behind the gateway: the store afterwards, and the answer
/// that the HTTP client gets.
pub open spec fn served(store: Store, request: RequestView, now: int) -> (Store, ReplyView) {
    match first_step(request) {
        StepView::Reply(reply) => (store, reply),
        StepView::Call(call) => {
            let (next, outcome) = service(store, call, now);
            (next, last_step(outcome).reply)
        },
    }
}

/// The request that stores `value` under `key`.
pub open spec fn store_request(key: Seq<char>, value: Seq<char>, ttl: Option<i32>) -> RequestView {
    RequestView::Store { form: FormKeyView { key, value, ttl } }
}

/// A value stored without a time-to-live is read back unchanged, at the
/// same instant and at any later one.
pub proof fn stored_value_is_read_back(
    store: Store,
    key: Seq<char>,
    value: Seq<char>,
    stored_at: int,
    read_at: int,
)
    ensures
        served(store, store_request(key, value, None), stored_at).1 == set_reply(),
        served(
            served(store, store_request(key, value, None), stored_at).0,
            RequestView::Lookup { key },
            read_at,
        ).1 == (ReplyView { status: 200, body: value }),
{
}

/// After a delete the key is not found, whether it was there or not.
pub proof fn deleted_key_is_not_found(store: Store, key: Seq<char>, deleted_at: int, read_at: int)
    ensures
        served(
            served(store, RequestView::Delete { key }, deleted_at).0,
            RequestView::Lookup { key },
            read_at,
        ).1 == (ReplyView { status: 404, body: "not found"@ }),
{
}

/// A value stored with a time-to-live of one second or more is read back
/// for that many seconds, and is not found from then on.
pub proof fn stored_value_expires(
    store: Store,
    key: Seq<char>,
    value: Seq<char>,
    ttl: i32,
    stored_at: int,
    read_at: int,
)
    requires
        ttl >= 1,
        stored_at <= read_at,
    ensures
        read_at < stored_at + ttl ==> served(
            served(store, store_request(key, value, Some(ttl)), stored_at).0,
            RequestView::Lookup { key },
            read_at,
        ).1 == (ReplyView { status: 200, body: value }),
        read_at >= stored_at + ttl ==> served(
            served(store, store_request(key, value, Some(ttl)), stored_at).0,
            RequestView::Lookup { key },
            read_at,
        ).1 == (ReplyView { status: 404, body: "not found"@ }),
{
}

/// A later store replaces the value and the expiry of an earlier one:
/// the store is as if the earlier one had never been.
pub proof fn later_store_replaces_earlier(
    store: Store,
    key: Seq<char>,
    first: FormKeyView,
    first_at: int,
    second: FormKeyView,
    second_at: int,
)
    requires
        first.key == key,
        second.key == key,
    ensures
        served(
            served(store, RequestView::Store { form: first }, first_at).0,
            RequestView::Store { form: second },
            second_at,
        ).0 == served(store, RequestView::Store { form: second }, second_at).0,
{
    let once = after_store(store, key, second.value, second.ttl, second_at);
    let twice = after_store(
        after_store(store, key, first.value, first.ttl, first_at),
        key,
        second.value,
        second.ttl,
        second_at,
    );
    assert(twice =~= once);
}

/// Deleting a key that is not there answers as every delete does, and
/// changes nothing.
pub proof fn delete_of_absent_key_succeeds(store: Store, key: Seq<char>, now: int)
    requires
        !store.dom().contains(key),
    ensures
        served(store, RequestView::Delete { key }, now).1 == (ReplyView {
            status: 200,
            body: "del ok"@,
        }),
        served(store, RequestView::Delete { key }, now).0 == store,
{
    assert(after_delete(store, key) =~= store);
}

/// A delete is answered the same way whatever the call to the service
/// came to; so is a store.
pub proof fn changes_always_answer_ok(outcome: Result<bool, Seq<char>>)
    ensures
        last_step(OutcomeView::Delete(outcome)).reply == del_reply(),
        last_step(OutcomeView::Store(outcome)).reply == set_reply(),
{
}

/// A lookup whose call failed is answered as a lookup of an absent key.
pub proof fn failed_lookup_is_not_found(detail: Seq<char>)
    ensures
        last_step(OutcomeView::Lookup(Err(detail))).reply == last_step(
            OutcomeView::Lookup(Ok(None)),
        ).reply,
        last_step(OutcomeView::Lookup(Err(detail))).reply == (ReplyView {
            status: 404,
            body: "not found"@,
        }),
{
}

/// Whatever the call to the service came to, the HTTP client is answered
/// with 200 or with 404: a failure behind the gateway is never shown as an
/// error of the gateway.
pub proof fn failures_are_absorbed(outcome: OutcomeView)
    ensures
        last_step(outcome).reply.status == 200 || last_step(outcome).reply.status == 404,
        last_step(outcome).reply.status == 404 ==> outcome is Lookup,
{
}

/// Whether `request` neither stores under `key` nor deletes it.
pub open spec fn leaves_alone(request: RequestView, key: Seq<char>) -> bool {
    match request {
        RequestView::Ping => true,
        RequestView::Lookup { key: other } => true,
        RequestView::Store { form } => form.key != key,
        RequestView::Delete { key: other } => other != key,
    }
}

/// The store after a run of requests, each served at its own instant.
pub open spec fn served_all(store: Store, requests: Seq<(RequestView, int)>) -> Store
    decreases requests.len(),
{
    if requests.len() == 0 {
        store
    } else {
        served(served_all(store, requests.drop_last()), requests.last().0, requests.last().1).0
    }
}

/// A request that leaves a key alone changes nothing that is read under it.
pub proof fn other_keys_are_untouched(
    store: Store,
    request: RequestView,
    key: Seq<char>,
    now: int,
    read_at: int,
)
    requires
        leaves_alone(request, key),
    ensures
        lookup(served(store, request, now).0, key, read_at) == lookup(store, key, read_at),
{
}

/// A run of requests that all leave a key alone changes nothing that is
/// read under it.
pub proof fn run_leaves_key_untouched(
    store: Store,
    key: Seq<char>,
    between: Seq<(RequestView, int)>,
    read_at: int,
)
    requires
        forall|i: int| 0 <= i < between.len() ==> leaves_alone((#[trigger] between[i]).0, key),
    ensures
        lookup(served_all(store, between), key, read_at) == lookup(store, key, read_at),
    decreases between.len(),
{
    if between.len() > 0 {
        let earlier = between.drop_last();
        assert forall|i: int| 0 <= i < earlier.len() implies leaves_alone(
            (#[trigger] earlier[i]).0,
            key,
        ) by {
            assert(earlier[i] == between[i]);
        }
        run_leaves_key_untouched(store, key, earlier, read_at);
        assert(leaves_alone(between[between.len() - 1].0, key));
        other_keys_are_untouched(
            served_all(store, earlier),
            between.last().0,
            key,
            between.last().1,
            read_at,
        );
    }
}

/// A stored value is read back until it expires, through any number of
/// requests in between that neither store under its key nor delete it.
pub proof fn stored_value_survives_other_requests(
    store: Store,
    key: Seq<char>,
    value: Seq<char>,
    ttl: Option<i32>,
    stored_at: int,
    between: Seq<(RequestView, int)>,
    read_at: int,
)
    requires
        forall|i: int| 0 <= i < between.len() ==> leaves_alone((#[trigger] between[i]).0, key),
        match ttl {
            Some(seconds) => seconds >= 1 && read_at < stored_at + seconds,
            None => true,
        },
    ensures
        served(
            served_all(served(store, store_request(key, value, ttl), stored_at).0, between),
            RequestView::Lookup { key },
            read_at,
        ).1 == (ReplyView { status: 200, body: value }),
{
    let start = served(store, store_request(key, value, ttl), stored_at).0;
    assert(lookup(start, key, read_at) == Some(value));
    run_leaves_key_untouched(start, key, between, read_at);
}

/// A stored value is not found once it has expired, through any number of
/// requests in between that do not store under its key.
pub proof fn expired_value_stays_gone(
    store: Store,
    key: Seq<char>,
    value: Seq<char>,
    ttl: i32,
    stored_at: int,
    between: Seq<(RequestView, int)>,
    read_at: int,
)
    requires
        ttl >= 1,
        forall|i: int| 0 <= i < between.len() ==> leaves_alone((#[trigger] between[i]).0, key),
        read_at >= stored_at + ttl,
    ensures
        served(
            served_all(served(store, store_request(key, value, Some(ttl)), stored_at).0, between),
            RequestView::Lookup { key },
            read_at,
        ).1 == (ReplyView { status: 404, body: "not found"@ }),
{
    let start = served(store, store_request(key, value, Some(ttl)), stored_at).0;
    assert(lookup(start, key, read_at) is None);
    run_leaves_key_untouched(start, key, between, read_at);
}

/// A `GET` of `/ping` is answered with 200 and `pong`, without a call to
/// the service: so whatever the request carries besides, whatever the
/// service holds, and at any instant.
pub proof fn ping_always_answers_pong(
    content_type: Option<Seq<u8>>,
    body: Seq<u8>,
    store: Store,
    now: int,
)
    ensures
        received_of(Method::Get, ping_path(), content_type, body) == ReceivedView::Serve(
            RequestView::Ping,
        ),
        first_step(RequestView::Ping) == StepView::Reply(pong()),
        served(store, RequestView::Ping, now) == (store, ReplyView { status: 200, body: "pong"@ }),
{
}

/// A store and a delete are reached by `POST` alone: every other method on
/// `/set` and on `/del` is turned away as a method not allowed, whatever
/// the request carries.
pub proof fn forms_are_reached_by_post_alone(
    method: Method,
    content_type: Option<Seq<u8>>,
    body: Seq<u8>,
)
    requires
        method != Method::Post,
    ensures
        received_of(method, set_path(), content_type, body) == ReceivedView::Reject(
            Rejection::MethodNotAllowed,
        ),
        received_of(method, del_path(), content_type, body) == ReceivedView::Reject(
            Rejection::MethodNotAllowed,
        ),
{
}

/// A probe and a lookup are reached by `GET` alone.
pub proof fn reads_are_not_reached_by_other_methods(
    method: Method,
    path: Seq<u8>,
    content_type: Option<Seq<u8>>,
    body: Seq<u8>,
)
    requires
        method != Method::Get,
    ensures
        !(received_of(method, path, content_type, body) is Serve) || method == Method::Post,
        received_of(method, path, content_type, body) != ReceivedView::Serve(RequestView::Ping),
        forall|key: Seq<char>|
            received_of(method, path, content_type, body) != ReceivedView::Serve(
                RequestView::Lookup { key },
            ),
{
}

/// Serving a lookup or a probe leaves the store as it was.
pub proof fn reads_change_nothing(store: Store, key: Seq<char>, now: int)
    ensures
        served(store, RequestView::Lookup { key }, now).0 == store,
        served(store, RequestView::Ping, now).0 == store,
        served(store, RequestView::Lookup { key }, now).1 == lookup_reply(lookup(store, key, now)),
{
}

} // verus!
