use vstd::prelude::*;
use vstd::string::*;

verus! {

/// The ASCII code of `/`.
pub const SLASH: u8 = 0x2f;

/// The ASCII code of `d`.
pub const LOWER_D: u8 = 0x64;

/// The ASCII code of `e`.
pub const LOWER_E: u8 = 0x65;

/// The ASCII code of `g`.
pub const LOWER_G: u8 = 0x67;

/// The ASCII code of `i`.
pub const LOWER_I: u8 = 0x69;

/// The ASCII code of `l`.
pub const LOWER_L: u8 = 0x6c;

/// The ASCII code of `n`.
pub const LOWER_N: u8 = 0x6e;

/// The ASCII code of `p`.
pub const LOWER_P: u8 = 0x70;

/// The ASCII code of `s`.
pub const LOWER_S: u8 = 0x73;

/// The ASCII code of `t`.
pub const LOWER_T: u8 = 0x74;

/// The method of an HTTP request, as far as the gateway tells methods apart.
#[derive(Clone, Copy, Debug, PartialEq, Eq, Structural)]
pub enum Method {
    Get,
    Post,
    /// Every other method, `HEAD` among them.
    Other,
}

/// Which of the gateway's paths a request names.
#[derive(Clone, Copy, Debug, PartialEq, Eq, Structural)]
pub enum Place {
    /// `/ping`
    Ping,
    /// `/get/` and one segment more: the key, still percent-encoded.
    Key,
    /// `/set`
    SetForm,
    /// `/del`
    DelForm,
    /// Any other path.
    Nowhere,
}

/// The bytes of `/ping`.
pub open spec fn ping_path() -> Seq<u8> {
    seq![SLASH, LOWER_P, LOWER_I, LOWER_N, LOWER_G]
}

/// The bytes of `/set`.
pub open spec fn set_path() -> Seq<u8> {
    seq![SLASH, LOWER_S, LOWER_E, LOWER_T]
}

/// The bytes of `/del`.
pub open spec fn del_path() -> Seq<u8> {
    seq![SLASH, LOWER_D, LOWER_E, LOWER_L]
}

/// The bytes of `/get/`.
pub open spec fn get_prefix() -> Seq<u8> {
    seq![SLASH, LOWER_G, LOWER_E, LOWER_T, SLASH]
}

/// What follows the first five bytes of a path: under `/get/`, the key.
pub open spec fn key_segment(path: Seq<u8>) -> Seq<u8> {
    path.subrange(5, path.len() as int)
}

/// The place that a path names. Paths are matched byte for byte, with no
/// trailing slash to spare; a key is one segment, not empty and without a
/// slash in it.
pub open spec fn place_of(path: Seq<u8>) -> Place {
    if path == ping_path() {
        Place::Ping
    } else if path == set_path() {
        Place::SetForm
    } else if path == del_path() {
        Place::DelForm
    } else if path.len() > 5 && path.subrange(0, 5) == get_prefix() && !key_segment(
        path,
    ).contains(SLASH) {
        Place::Key
    } else {
        Place::Nowhere
    }
}

/// Whether a method reads: `GET` does, and no other.
pub open spec fn reads(method: Method) -> bool {
    method == Method::Get
}

/// The text that percent-decoding makes of a path segment: what
/// `PercentDecode::decode_utf8` gives for the decoder that
/// `percent_encoding::percent_decode` makes of these bytes; none where the
/// decoded bytes are not UTF-8.
pub uninterp spec fn percent_decoded(segment: Seq<u8>) -> Option<Seq<char>>;

/// A decoded segment, or its absence, as a mathematical value.
pub open spec fn text_view(text: Option<String>) -> Option<Seq<char>> {
    match text {
        Some(text) => Some(text@),
        None => None,
    }
}

/// Whether a text, where there is one, is not empty.
pub open spec fn not_empty(text: Option<Seq<char>>) -> bool {
    match text {
        Some(text) => text.len() > 0,
        None => true,
    }
}

/// Percent-decodes a path segment with `percent_encoding::percent_decode`
/// and reads the result as UTF-8 with `decode_utf8`.
///
/// Two things are taken on trust. The result is the text that those two
/// give for these bytes, or none where the second fails. And a segment that
/// is not empty does not decode to an empty text: the decoder yields a byte
/// for each byte or each `%` with its two hex digits.
#[verifier::external_body]
pub(crate) fn decode_segment(segment: &[u8]) -> (text: Option<String>)
    ensures
        text_view(text) == percent_decoded(segment@),
        segment@.len() > 0 ==> not_empty(text_view(text)),
{
    match percent_encoding::percent_decode(segment).decode_utf8() {
        Ok(text) => Some(text.into_owned()),
        Err(_) => None,
    }
}

fn is_ping(path: &[u8]) -> (yes: bool)
    ensures
        yes == (path@ == ping_path()),
{
    let yes = path.len() == 5 && path[0] == SLASH && path[1] == LOWER_P && path[2] == LOWER_I && path[3]
        == LOWER_N && path[4] == LOWER_G;
    assert(yes ==> path@ =~= ping_path());
    yes
}

fn is_set(path: &[u8]) -> (yes: bool)
    ensures
        yes == (path@ == set_path()),
{
    let yes = path.len() == 4 && path[0] == SLASH && path[1] == LOWER_S && path[2] == LOWER_E && path[3]
        == LOWER_T;
    assert(yes ==> path@ =~= set_path());
    yes
}

fn is_del(path: &[u8]) -> (yes: bool)
    ensures
        yes == (path@ == del_path()),
{
    let yes = path.len() == 4 && path[0] == SLASH && path[1] == LOWER_D && path[2] == LOWER_E && path[3]
        == LOWER_L;
    assert(yes ==> path@ =~= del_path());
    yes
}

fn is_under_get(path: &[u8]) -> (yes: bool)
    ensures
        yes == (path.len() > 5 && path@.subrange(0, 5) == get_prefix()),
{
    let yes = path.len() > 5 && path[0] == SLASH && path[1] == LOWER_G && path[2] == LOWER_E && path[3]
        == LOWER_T && path[4] == SLASH;
    proof {
        if path.len() > 5 {
            let head = path@.subrange(0, 5);
            assert(head[0] == path@[0] && head[1] == path@[1] && head[2] == path@[2] && head[3]
                == path@[3] && head[4] == path@[4]);
            assert(yes ==> head =~= get_prefix());
        }
    }
    yes
}

/// Finds the place that a path names.
pub fn place(path: &[u8]) -> (found: Place)
    ensures
        found == place_of(path@),
{
    if is_ping(path) {
        Place::Ping
    } else if is_set(path) {
        Place::SetForm
    } else if is_del(path) {
        Place::DelForm
    } else if is_under_get(path) {
        let ghost key = key_segment(path@);
        let mut i: usize = 5;
        while i < path.len()
            invariant
                5 <= i <= path.len(),
                key == key_segment(path@),
                forall|j: int| 0 <= j < i - 5 ==> key[j] != SLASH,
            decreases path.len() - i,
        {
            if path[i] == SLASH {
                assert(key[i - 5] == SLASH);
                return Place::Nowhere;
            }
            i += 1;
        }
        Place::Key
    } else {
        Place::Nowhere
    }
}

/// The bytes of `application/x-www-form-urlencoded`, the media type of a
/// form body.
pub open spec fn form_media_type() -> Seq<u8> {
    "application/x-www-form-urlencoded".spec_bytes()
}

/// Whether a byte may stand in the text of a header: visible ASCII, a
/// blank or a tab.
pub open spec fn is_header_byte(byte: u8) -> bool {
    (32 <= byte && byte < 127) || byte == 9
}

/// Whether a header value is text all through.
pub open spec fn is_header_text(value: Seq<u8>) -> bool {
    forall|i: int| 0 <= i < value.len() ==> is_header_byte(#[trigger] value[i])
}

/// Whether `value` begins with `prefix`.
pub open spec fn begins_with(value: Seq<u8>, prefix: Seq<u8>) -> bool {
    prefix.len() <= value.len() && value.subrange(0, prefix.len() as int) == prefix
}

/// Whether a `Content-Type` header declares a URL-encoded form: there is
/// one, it is text, and it begins with the media type of a form, letter for
/// letter. Parameters may follow.
pub open spec fn declares_form(content_type: Option<Seq<u8>>) -> bool {
    match content_type {
        Some(value) => is_header_text(value) && begins_with(value, form_media_type()),
        None => false,
    }
}

/// A header value, or its absence, as a mathematical value.
pub open spec fn header_view(value: Option<&[u8]>) -> Option<Seq<u8>> {
    match value {
        Some(value) => Some(value@),
        None => None,
    }
}

fn is_text(value: &[u8]) -> (yes: bool)
    ensures
        yes == is_header_text(value@),
{
    let mut i: usize = 0;
    while i < value.len()
        invariant
            i <= value.len(),
            forall|j: int| 0 <= j < i ==> is_header_byte(#[trigger] value@[j]),
        decreases value.len() - i,
    {
        let byte = value[i];
        if !((32 <= byte && byte < 127) || byte == 9) {
            return false;
        }
        i += 1;
    }
    true
}

fn starts_with(value: &[u8], prefix: &[u8]) -> (yes: bool)
    ensures
        yes == begins_with(value@, prefix@),
{
    if prefix.len() > value.len() {
        return false;
    }
    let ghost head = value@.subrange(0, prefix.len() as int);
    let mut i: usize = 0;
    while i < prefix.len()
        invariant
            i <= prefix.len() <= value.len(),
            head == value@.subrange(0, prefix.len() as int),
            forall|j: int| 0 <= j < i ==> head[j] == prefix@[j],
        decreases prefix.len() - i,
    {
        if value[i] != prefix[i] {
            assert(head[i as int] != prefix@[i as int]);
            return false;
        }
        i += 1;
    }
    assert(head =~= prefix@);
    true
}

/// Tells whether the value of a `Content-Type` header, where there is one,
/// declares the body as a URL-encoded form.
pub fn is_form(content_type: Option<&[u8]>) -> (yes: bool)
    ensures
        yes == declares_form(header_view(content_type)),
{
    match content_type {
        Some(value) => is_text(value) && starts_with(
            value,
            "application/x-www-form-urlencoded".as_bytes(),
        ),
        None => false,
    }
}

} // verus!
