use cache_gateway::form::{
    decode_del_form, decode_set_form, del_form, set_form, DelFormKey, Field, FormError, FormKey,
};

fn field(name: &str, value: &str) -> Field {
    Field { name: name.to_string(), value: value.to_string() }
}

fn form(key: &str, value: &str, ttl: Option<i32>) -> FormKey {
    FormKey { key: key.to_string(), value: value.to_string(), ttl }
}

#[test]
fn store_body_without_ttl() {
    assert_eq!(set_form(b"key=foo&value=bar"), Ok(form("foo", "bar", None)));
}

#[test]
fn store_body_with_ttl() {
    assert_eq!(set_form(b"key=foo&value=bar&ttl=1"), Ok(form("foo", "bar", Some(1))));
    assert_eq!(set_form(b"ttl=-3&value=bar&key=foo"), Ok(form("foo", "bar", Some(-3))));
    assert_eq!(set_form(b"key=foo&value=bar&ttl=0"), Ok(form("foo", "bar", Some(0))));
}

#[test]
fn store_body_is_url_decoded() {
    assert_eq!(
        set_form(b"key=a%20b%26c&value=x+y%3Dz"),
        Ok(form("a b&c", "x y=z", None))
    );
    assert_eq!(set_form(b"key=%E2%82%AC&value=%f0%9f%a6%80"), Ok(form("\u{20ac}", "\u{1f980}", None)));
}

#[test]
fn store_body_may_hold_empty_values() {
    assert_eq!(set_form(b"key=&value="), Ok(form("", "", None)));
    assert_eq!(set_form(b"key&value"), Ok(form("", "", None)));
}

#[test]
fn store_body_ignores_other_fields() {
    assert_eq!(
        set_form(b"extra=1&key=foo&&other=2&value=bar&extra=3"),
        Ok(form("foo", "bar", None))
    );
}

#[test]
fn store_body_with_missing_field() {
    assert_eq!(set_form(b""), Err(FormError::MissingField));
    assert_eq!(set_form(b"key=foo"), Err(FormError::MissingField));
    assert_eq!(set_form(b"value=bar"), Err(FormError::MissingField));
    assert_eq!(set_form(b"value=bar&ttl=1"), Err(FormError::MissingField));
    assert_eq!(set_form(b"Key=foo&value=bar"), Err(FormError::MissingField));
}

#[test]
fn store_body_with_repeated_field() {
    assert_eq!(set_form(b"key=foo&key=foo&value=bar"), Err(FormError::DuplicateField));
    assert_eq!(set_form(b"key=foo&value=a&value=b"), Err(FormError::DuplicateField));
    assert_eq!(set_form(b"key=foo&value=a&ttl=1&ttl=2"), Err(FormError::DuplicateField));
}

#[test]
fn store_body_with_bad_ttl() {
    assert_eq!(set_form(b"key=foo&value=bar&ttl=soon"), Err(FormError::InvalidTtl));
    assert_eq!(set_form(b"key=foo&value=bar&ttl="), Err(FormError::InvalidTtl));
    assert_eq!(set_form(b"key=foo&value=bar&ttl=1.0"), Err(FormError::InvalidTtl));
    assert_eq!(set_form(b"key=foo&value=bar&ttl=2147483648"), Err(FormError::InvalidTtl));
    assert_eq!(set_form(b"key=foo&value=bar&ttl=+1"), Err(FormError::InvalidTtl));
    assert_eq!(set_form(b"key=foo&value=bar&ttl=%2B1"), Ok(form("foo", "bar", Some(1))));
}

#[test]
fn store_faults_are_reported_in_a_fixed_order() {
    assert_eq!(set_form(b"ttl=x&ttl=y"), Err(FormError::DuplicateField));
    assert_eq!(set_form(b"key=foo&ttl=x"), Err(FormError::MissingField));
    assert_eq!(set_form(b"value=1&value=2&ttl=x"), Err(FormError::DuplicateField));
}

#[test]
fn delete_body() {
    assert_eq!(del_form(b"key=foo"), Ok(DelFormKey { key: "foo".to_string() }));
    assert_eq!(del_form(b"key=a+b"), Ok(DelFormKey { key: "a b".to_string() }));
    assert_eq!(del_form(b"value=1&key=foo&ttl=soon"), Ok(DelFormKey { key: "foo".to_string() }));
}

#[test]
fn delete_body_with_faults() {
    assert_eq!(del_form(b""), Err(FormError::MissingField));
    assert_eq!(del_form(b"value=bar"), Err(FormError::MissingField));
    assert_eq!(del_form(b"key=foo&key=bar"), Err(FormError::DuplicateField));
}

#[test]
fn store_fields_decoded_directly() {
    let fields = vec![field("value", "bar"), field("ttl", "30"), field("key", "foo")];
    assert_eq!(decode_set_form(&fields), Ok(form("foo", "bar", Some(30))));
    let fields = vec![field("key", "k"), field("value", "v")];
    assert_eq!(decode_set_form(&fields), Ok(form("k", "v", None)));
    assert_eq!(decode_set_form(&Vec::new()), Err(FormError::MissingField));
    let fields = vec![field("key", "k"), field("value", "v"), field("key", "k")];
    assert_eq!(decode_set_form(&fields), Err(FormError::DuplicateField));
    let fields = vec![field("key", "k"), field("value", "v"), field("ttl", " 5")];
    assert_eq!(decode_set_form(&fields), Err(FormError::InvalidTtl));
}

#[test]
fn delete_fields_decoded_directly() {
    let fields = vec![field("other", "x"), field("key", "foo")];
    assert_eq!(decode_del_form(&fields), Ok(DelFormKey { key: "foo".to_string() }));
    assert_eq!(decode_del_form(&vec![field("other", "x")]), Err(FormError::MissingField));
    let fields = vec![field("key", "a"), field("key", "b")];
    assert_eq!(decode_del_form(&fields), Err(FormError::DuplicateField));
}
