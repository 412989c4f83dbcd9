use crate::ttl::{parse_ttl, ttl_of};
use vstd::prelude::*;
use vstd::string::*;

verus! {

/// One field of a form body, after URL-decoding.
#[derive(Debug, PartialEq, Eq)]
pub struct Field {
    pub name: String,
    pub value: String,
}

/// A decoded body as a mathematical value: its fields in the order in which
/// the body gives them, each a name and a value.
pub type Fields = Seq<(Seq<char>, Seq<char>)>;

/// The fields that a list of [`Field`] stands for.
pub open spec fn fields_view(fields: Seq<Field>) -> Fields {
    fields.map_values(|field: Field| (field.name@, field.value@))
}

/// The fields of an `application/x-www-form-urlencoded` body, as
/// `form_urlencoded::parse` yields them.
pub uninterp spec fn form_pairs(body: Seq<u8>) -> Fields;

/// The form of a store request.
#[derive(Debug, PartialEq, Eq)]
pub struct FormKey {
    pub key: String,
    pub value: String,
    pub ttl: Option<i32>,
}

/// A [`FormKey`] as a mathematical value.
pub struct FormKeyView {
    pub key: Seq<char>,
    pub value: Seq<char>,
    pub ttl: Option<i32>,
}

impl View for FormKey {
    type V = FormKeyView;

    open spec fn view(&self) -> FormKeyView {
        FormKeyView { key: self.key@, value: self.value@, ttl: self.ttl }
    }
}

/// The form of a delete request.
#[derive(Debug, PartialEq, Eq)]
pub struct DelFormKey {
    pub key: String,
}

impl View for DelFormKey {
    type V = Seq<char>;

    open spec fn view(&self) -> Seq<char> {
        self.key@
    }
}

/// Why a body is not the form that was asked for.
#[derive(Clone, Copy, Debug, PartialEq, Eq, Structural)]
pub enum FormError {
    /// A field of the form occurs more than once.
    DuplicateField,
    /// A field that the form requires does not occur.
    MissingField,
    /// The field `ttl` occurs and is not a signed 32-bit integer.
    InvalidTtl,
}

/// Whether the field at index `i` is called `name`.
pub open spec fn has_name(fields: Fields, name: Seq<char>, i: int) -> bool {
    0 <= i < fields.len() && fields[i].0 == name
}

/// Whether no field is called `name`.
pub open spec fn absent(fields: Fields, name: Seq<char>) -> bool {
    forall|i: int| !has_name(fields, name, i)
}

/// Whether two fields or more are called `name`.
pub open spec fn repeated(fields: Fields, name: Seq<char>) -> bool {
    exists|i: int, j: int| i != j && has_name(fields, name, i) && has_name(fields, name, j)
}

/// The value of a field called `name`: of the only one, where there is
/// exactly one.
pub open spec fn value_of(fields: Fields, name: Seq<char>) -> Seq<char> {
    fields[choose|i: int| has_name(fields, name, i)].1
}

/// The store form that `fields` holds.
///
/// `key` and `value` must each occur once; `ttl` may occur once, and must
/// then be a signed 32-bit integer. Fields of other names are ignored.
/// Of several faults a repeated field is reported first, then a missing
/// one, then a bad `ttl`.
pub open spec fn set_form_of(fields: Fields) -> Result<FormKeyView, FormError> {
    if repeated(fields, "key"@) || repeated(fields, "value"@) || repeated(fields, "ttl"@) {
        Err(FormError::DuplicateField)
    } else if absent(fields, "key"@) || absent(fields, "value"@) {
        Err(FormError::MissingField)
    } else if absent(fields, "ttl"@) {
        Ok(
            FormKeyView {
                key: value_of(fields, "key"@),
                value: value_of(fields, "value"@),
                ttl: None,
            },
        )
    } else {
        match ttl_of(value_of(fields, "ttl"@)) {
            Some(ttl) => Ok(
                FormKeyView {
                    key: value_of(fields, "key"@),
                    value: value_of(fields, "value"@),
                    ttl: Some(ttl),
                },
            ),
            None => Err(FormError::InvalidTtl),
        }
    }
}

/// The delete form that `fields` holds: `key` must occur once. Fields of
/// other names are ignored.
pub open spec fn del_form_of(fields: Fields) -> Result<Seq<char>, FormError> {
    if repeated(fields, "key"@) {
        Err(FormError::DuplicateField)
    } else if absent(fields, "key"@) {
        Err(FormError::MissingField)
    } else {
        Ok(value_of(fields, "key"@))
    }
}

/// A decoded store form, or the reason why there is none, as a
/// mathematical value.
pub open spec fn set_form_view(decoded: Result<FormKey, FormError>) -> Result<
    FormKeyView,
    FormError,
> {
    match decoded {
        Ok(form) => Ok(form@),
        Err(error) => Err(error),
    }
}

/// A decoded delete form, or the reason why there is none, as a
/// mathematical value.
pub open spec fn del_form_view(decoded: Result<DelFormKey, FormError>) -> Result<
    Seq<char>,
    FormError,
> {
    match decoded {
        Ok(form) => Ok(form@),
        Err(error) => Err(error),
    }
}

/// How often a name occurs among the fields.
enum Occurrence {
    Never,
    Once(usize),
    Repeated,
}

/// Splits a form body into its fields with `form_urlencoded::parse`: the
/// result is what that function yields for these bytes, pair by pair and in
/// its order. Nothing more is claimed of it.
#[verifier::external_body]
fn parse_fields(body: &[u8]) -> (fields: Vec<Field>)
    ensures
        fields_view(fields@) == form_pairs(body@),
{
    let mut fields = Vec::new();
    for (name, value) in form_urlencoded::parse(body).into_owned() {
        fields.push(Field { name, value });
    }
    fields
}

/// Looks for the fields called `name`.
fn find(fields: &Vec<Field>, name: &str) -> (found: Occurrence)
    ensures
        match found {
            Occurrence::Never => absent(fields_view(fields@), name@),
            Occurrence::Once(i) => {
                &&& has_name(fields_view(fields@), name@, i as int)
                &&& forall|j: int| has_name(fields_view(fields@), name@, j) ==> j == i
            },
            Occurrence::Repeated => repeated(fields_view(fields@), name@),
        },
{
    let wanted = String::from_str(name);
    let ghost all = fields_view(fields@);
    let mut found = Occurrence::Never;
    let mut i: usize = 0;
    while i < fields.len()
        invariant
            i <= fields.len(),
            all == fields_view(fields@),
            wanted@ == name@,
            match found {
                Occurrence::Never => forall|j: int| 0 <= j < i ==> !has_name(all, name@, j),
                Occurrence::Once(k) => {
                    &&& k < i
                    &&& has_name(all, name@, k as int)
                    &&& forall|j: int| 0 <= j < i && has_name(all, name@, j) ==> j == k
                },
                Occurrence::Repeated => false,
            },
        decreases fields.len() - i,
    {
        if fields[i].name == wanted {
            assert(has_name(all, name@, i as int));
            match found {
                Occurrence::Never => {
                    found = Occurrence::Once(i);
                },
                Occurrence::Once(k) => {
                    assert(has_name(all, name@, k as int));
                    return Occurrence::Repeated;
                },
                Occurrence::Repeated => {},
            }
        }
        i += 1;
    }
    found
}

/// Decodes the fields of a store form. The result is exactly
/// [`set_form_of`] of the fields.
pub fn decode_set_form(fields: &Vec<Field>) -> (decoded: Result<FormKey, FormError>)
    ensures
        set_form_view(decoded) == set_form_of(fields_view(fields@)),
{
    let key = find(fields, "key");
    let value = find(fields, "value");
    let ttl = find(fields, "ttl");
    match (key, value, ttl) {
        (Occurrence::Repeated, _, _) | (_, Occurrence::Repeated, _) | (
            _,
            _,
            Occurrence::Repeated,
        ) => Err(FormError::DuplicateField),
        (Occurrence::Never, _, _) | (_, Occurrence::Never, _) => Err(FormError::MissingField),
        (Occurrence::Once(k), Occurrence::Once(v), Occurrence::Never) => Ok(
            FormKey { key: fields[k].value.clone(), value: fields[v].value.clone(), ttl: None },
        ),
        (Occurrence::Once(k), Occurrence::Once(v), Occurrence::Once(t)) => {
            match parse_ttl(fields[t].value.as_str()) {
                Some(seconds) => Ok(
                    FormKey {
                        key: fields[k].value.clone(),
                        value: fields[v].value.clone(),
                        ttl: Some(seconds),
                    },
                ),
                None => Err(FormError::InvalidTtl),
            }
        },
    }
}

/// Decodes the fields of a delete form. The result is exactly
/// [`del_form_of`] of the fields.
pub fn decode_del_form(fields: &Vec<Field>) -> (decoded: Result<DelFormKey, FormError>)
    ensures
        del_form_view(decoded) == del_form_of(fields_view(fields@)),
{
    match find(fields, "key") {
        Occurrence::Repeated => Err(FormError::DuplicateField),
        Occurrence::Never => Err(FormError::MissingField),
        Occurrence::Once(k) => Ok(DelFormKey { key: fields[k].value.clone() }),
    }
}

/// Decodes the body of a store request: splits it into fields, then reads
/// them as [`decode_set_form`] does.
pub fn set_form(body: &[u8]) -> (decoded: Result<FormKey, FormError>)
    ensures
        set_form_view(decoded) == set_form_of(form_pairs(body@)),
{
    let fields = parse_fields(body);
    decode_set_form(&fields)
}

/// Decodes the body of a delete request: splits it into fields, then reads
/// them as [`decode_del_form`] does.
pub fn del_form(body: &[u8]) -> (decoded: Result<DelFormKey, FormError>)
    ensures
        del_form_view(decoded) == del_form_of(form_pairs(body@)),
{
    let fields = parse_fields(body);
    decode_del_form(&fields)
}

/// Two lists of fields that hold `name` at the same places with the same
/// values are alike in all that a form reads of `name`.
proof fn same_occurrences(before: Fields, after: Fields, name: Seq<char>)
    requires
        forall|i: int| has_name(before, name, i) <==> has_name(after, name, i),
        forall|i: int| has_name(before, name, i) ==> before[i].1 == after[i].1,
    ensures
        absent(before, name) == absent(after, name),
        repeated(before, name) == repeated(after, name),
        !absent(before, name) && !repeated(before, name) ==> value_of(before, name) == value_of(
            after,
            name,
        ),
{
    if repeated(before, name) {
        let (i, j) = choose|i: int, j: int|
            i != j && has_name(before, name, i) && has_name(before, name, j);
        assert(i != j && has_name(after, name, i) && has_name(after, name, j));
    }
    if repeated(after, name) {
        let (i, j) = choose|i: int, j: int|
            i != j && has_name(after, name, i) && has_name(after, name, j);
        assert(i != j && has_name(before, name, i) && has_name(before, name, j));
    }
    if !absent(before, name) && !repeated(before, name) {
        let i = choose|i: int| has_name(before, name, i);
        let j = choose|j: int| has_name(after, name, j);
        assert(has_name(before, name, i));
        assert(has_name(after, name, i));
        assert(has_name(after, name, j));
        assert(has_name(before, name, j));
        assert(i == j);
    }
}

/// A field more, of a name that the store form does not have, changes
/// nothing in what is decoded.
pub proof fn store_form_ignores_other_fields(fields: Fields, other: (Seq<char>, Seq<char>))
    requires
        other.0 != "key"@,
        other.0 != "value"@,
        other.0 != "ttl"@,
    ensures
        set_form_of(fields.push(other)) == set_form_of(fields),
{
    let more = fields.push(other);
    assert forall|i: int| 0 <= i < fields.len() implies more[i] == fields[i] by {}
    same_occurrences(fields, more, "key"@);
    same_occurrences(fields, more, "value"@);
    same_occurrences(fields, more, "ttl"@);
}

/// A field more, of another name than `key`, changes nothing in what is
/// decoded as a delete form.
pub proof fn delete_form_ignores_other_fields(fields: Fields, other: (Seq<char>, Seq<char>))
    requires
        other.0 != "key"@,
    ensures
        del_form_of(fields.push(other)) == del_form_of(fields),
{
    let more = fields.push(other);
    assert forall|i: int| 0 <= i < fields.len() implies more[i] == fields[i] by {}
    same_occurrences(fields, more, "key"@);
}

/// A decoded store form holds the first and only `key`, `value` and `ttl`
/// of the body: whenever a form is decoded, none of the three occurs twice.
pub proof fn decoded_store_form_is_unambiguous(fields: Fields)
    requires
        set_form_of(fields) is Ok,
    ensures
        !repeated(fields, "key"@),
        !repeated(fields, "value"@),
        !repeated(fields, "ttl"@),
        !absent(fields, "key"@),
        !absent(fields, "value"@),
        set_form_of(fields)->Ok_0.ttl is Some <==> !absent(fields, "ttl"@),
{
}

} // verus!
