use cache_gateway::form::{DelFormKey, FormError, FormKey};
use cache_gateway::gateway::{
    admit_delete, admit_lookup, admit_store, receive, Received, Request,
};
use cache_gateway::reply::{rejection_reply, HttpReply, Rejection};
use cache_gateway::route::{is_form, place, Method, Place};

const FORM: Option<&[u8]> = Some(b"application/x-www-form-urlencoded");

fn lookup(key: &str) -> Received {
    Received::Serve(Request::Lookup(key.to_string()))
}

#[test]
fn the_four_paths() {
    assert_eq!(place(b"/ping"), Place::Ping);
    assert_eq!(place(b"/set"), Place::SetForm);
    assert_eq!(place(b"/del"), Place::DelForm);
    assert_eq!(place(b"/get/foo"), Place::Key);
    assert_eq!(place(b"/get/f"), Place::Key);
    assert_eq!(place(b"/get/a%2Fb"), Place::Key);
    assert_eq!(place(b"/get/ping"), Place::Key);
}

#[test]
fn other_paths_lead_nowhere() {
    assert_eq!(place(b""), Place::Nowhere);
    assert_eq!(place(b"/"), Place::Nowhere);
    assert_eq!(place(b"ping"), Place::Nowhere);
    assert_eq!(place(b"/ping/"), Place::Nowhere);
    assert_eq!(place(b"/PING"), Place::Nowhere);
    assert_eq!(place(b"/pong"), Place::Nowhere);
    assert_eq!(place(b"/set/"), Place::Nowhere);
    assert_eq!(place(b"/sets"), Place::Nowhere);
    assert_eq!(place(b"/del/foo"), Place::Nowhere);
    assert_eq!(place(b"/get"), Place::Nowhere);
    assert_eq!(place(b"/get/"), Place::Nowhere);
    assert_eq!(place(b"/get/foo/"), Place::Nowhere);
    assert_eq!(place(b"/get/foo/bar"), Place::Nowhere);
    assert_eq!(place(b"/get//"), Place::Nowhere);
    assert_eq!(place(b"/gets/foo"), Place::Nowhere);
    assert_eq!(place(b"/got/foo"), Place::Nowhere);
}

#[test]
fn probe_is_received() {
    assert_eq!(receive(Method::Get, b"/ping", None, b""), Received::Serve(Request::Ping));
    assert_eq!(
        receive(Method::Get, b"/ping", FORM, b"key=foo"),
        Received::Serve(Request::Ping)
    );
}

#[test]
fn lookup_is_received_with_its_key_decoded() {
    assert_eq!(receive(Method::Get, b"/get/foo", None, b""), lookup("foo"));
    assert_eq!(receive(Method::Get, b"/get/a%20b", None, b""), lookup("a b"));
    assert_eq!(receive(Method::Get, b"/get/a%2Fb", None, b""), lookup("a/b"));
    assert_eq!(receive(Method::Get, b"/get/a+b", None, b""), lookup("a+b"));
    assert_eq!(receive(Method::Get, b"/get/%zz", None, b""), lookup("%zz"));
    assert_eq!(receive(Method::Get, b"/get/%E2%82%AC", None, b""), lookup("\u{20ac}"));
}

#[test]
fn lookup_with_a_key_that_is_not_text() {
    assert_eq!(
        receive(Method::Get, b"/get/%ff", None, b""),
        Received::Reject(Rejection::BadKey)
    );
    assert_eq!(
        receive(Method::Get, b"/get/a%C3", None, b""),
        Received::Reject(Rejection::BadKey)
    );
}

#[test]
fn forms_are_not_served_to_readers() {
    let refused = Received::Reject(Rejection::MethodNotAllowed);
    assert_eq!(receive(Method::Get, b"/set", None, b""), refused);
    assert_eq!(receive(Method::Other, b"/set", None, b""), refused);
    assert_eq!(receive(Method::Get, b"/del", None, b""), refused);
    assert_eq!(receive(Method::Other, b"/del", FORM, b"key=foo"), refused);
    assert_eq!(receive(Method::Get, b"/set", FORM, b"key=foo&value=bar"), refused);
}

#[test]
fn store_is_received_with_its_form() {
    assert_eq!(
        receive(Method::Post, b"/set", FORM, b"key=foo&value=bar&ttl=1"),
        Received::Serve(Request::Store(FormKey {
            key: "foo".to_string(),
            value: "bar".to_string(),
            ttl: Some(1),
        }))
    );
}

#[test]
fn delete_is_received_with_its_form() {
    assert_eq!(
        receive(Method::Post, b"/del", FORM, b"key=foo"),
        Received::Serve(Request::Delete(DelFormKey { key: "foo".to_string() }))
    );
}

#[test]
fn bad_forms_are_turned_away() {
    assert_eq!(
        receive(Method::Post, b"/set", FORM, b"key=foo"),
        Received::Reject(Rejection::BadForm(FormError::MissingField))
    );
    assert_eq!(
        receive(Method::Post, b"/set", FORM, b"key=foo&value=bar&ttl=never"),
        Received::Reject(Rejection::BadForm(FormError::InvalidTtl))
    );
    assert_eq!(
        receive(Method::Post, b"/del", FORM, b"key=foo&key=bar"),
        Received::Reject(Rejection::BadForm(FormError::DuplicateField))
    );
    assert_eq!(
        receive(Method::Post, b"/del", FORM, b""),
        Received::Reject(Rejection::BadForm(FormError::MissingField))
    );
}

#[test]
fn bodies_that_are_no_forms_are_turned_away() {
    assert_eq!(
        receive(Method::Post, b"/set", None, b"key=foo&value=bar"),
        Received::Reject(Rejection::UnsupportedMediaType)
    );
    assert_eq!(
        receive(Method::Post, b"/del", None, b"key=foo"),
        Received::Reject(Rejection::UnsupportedMediaType)
    );
}

#[test]
fn wrong_methods_are_turned_away() {
    let refused = Received::Reject(Rejection::MethodNotAllowed);
    assert_eq!(receive(Method::Post, b"/ping", FORM, b""), refused);
    assert_eq!(receive(Method::Other, b"/ping", None, b""), refused);
    assert_eq!(receive(Method::Post, b"/get/foo", FORM, b"key=foo"), refused);
    assert_eq!(receive(Method::Other, b"/get/%ff", None, b""), refused);
    assert_eq!(receive(Method::Other, b"/set", FORM, b"key=foo&value=bar"), refused);
    assert_eq!(receive(Method::Other, b"/del", None, b"key=foo"), refused);
}

#[test]
fn unknown_paths_are_turned_away() {
    let unknown = Received::Reject(Rejection::NotFound);
    assert_eq!(receive(Method::Get, b"/", None, b""), unknown);
    assert_eq!(receive(Method::Post, b"/get/", FORM, b"key=foo"), unknown);
    assert_eq!(receive(Method::Other, b"/nothing", None, b""), unknown);
    assert_eq!(receive(Method::Get, b"/get/a/b", None, b""), unknown);
}

#[test]
fn admission_of_decoded_input() {
    assert_eq!(admit_lookup(Some("foo".to_string())), lookup("foo"));
    assert_eq!(admit_lookup(Some(String::new())), lookup(""));
    assert_eq!(admit_lookup(None), Received::Reject(Rejection::BadKey));
    assert_eq!(
        admit_store(Ok(FormKey { key: "k".to_string(), value: "v".to_string(), ttl: None })),
        Received::Serve(Request::Store(FormKey {
            key: "k".to_string(),
            value: "v".to_string(),
            ttl: None,
        }))
    );
    assert_eq!(
        admit_store(Err(FormError::DuplicateField)),
        Received::Reject(Rejection::BadForm(FormError::DuplicateField))
    );
    assert_eq!(
        admit_delete(Ok(DelFormKey { key: "k".to_string() })),
        Received::Serve(Request::Delete(DelFormKey { key: "k".to_string() }))
    );
    assert_eq!(
        admit_delete(Err(FormError::MissingField)),
        Received::Reject(Rejection::BadForm(FormError::MissingField))
    );
}

#[test]
fn content_types_that_declare_a_form() {
    assert!(is_form(Some(b"application/x-www-form-urlencoded")));
    assert!(is_form(Some(b"application/x-www-form-urlencoded; charset=UTF-8")));
    assert!(is_form(Some(b"application/x-www-form-urlencoded\t;q=1")));
    assert!(is_form(Some(b"application/x-www-form-urlencodedX")));
}

#[test]
fn content_types_that_declare_no_form() {
    assert!(!is_form(None));
    assert!(!is_form(Some(b"")));
    assert!(!is_form(Some(b"application/json")));
    assert!(!is_form(Some(b"text/plain")));
    assert!(!is_form(Some(b"multipart/form-data")));
    assert!(!is_form(Some(b"application/x-www-form-urlencode")));
    assert!(!is_form(Some(b" application/x-www-form-urlencoded")));
    assert!(!is_form(Some(b"Application/X-WWW-Form-Urlencoded")));
    assert!(!is_form(Some(b"application/x-www-form-urlencoded; name=\xff")));
    assert!(!is_form(Some(b"application/x-www-form-urlencoded\x7f")));
    assert!(!is_form(Some(b"application/x-www-form-urlencoded\n")));
}

#[test]
fn media_type_with_parameters_is_read_as_a_form() {
    assert_eq!(
        receive(
            Method::Post,
            b"/del",
            Some(b"application/x-www-form-urlencoded; charset=utf-8"),
            b"key=foo"
        ),
        Received::Serve(Request::Delete(DelFormKey { key: "foo".to_string() }))
    );
    assert_eq!(
        receive(Method::Post, b"/del", Some(b"application/json"), b"key=foo"),
        Received::Reject(Rejection::UnsupportedMediaType)
    );
}

#[test]
fn answers_to_requests_turned_away() {
    assert_eq!(
        rejection_reply(Rejection::NotFound),
        HttpReply { status: 404, body: String::new() }
    );
    assert_eq!(
        rejection_reply(Rejection::MethodNotAllowed),
        HttpReply { status: 405, body: String::new() }
    );
    assert_eq!(
        rejection_reply(Rejection::BadKey),
        HttpReply { status: 400, body: "Invalid URL: Invalid UTF-8 in `keys`".to_string() }
    );
    assert_eq!(
        rejection_reply(Rejection::UnsupportedMediaType),
        HttpReply {
            status: 415,
            body: "Form requests must have `Content-Type: application/x-www-form-urlencoded`"
                .to_string(),
        }
    );
    for error in [FormError::DuplicateField, FormError::MissingField, FormError::InvalidTtl] {
        assert_eq!(
            rejection_reply(Rejection::BadForm(error)),
            HttpReply { status: 422, body: "Failed to deserialize form body".to_string() }
        );
    }
}
