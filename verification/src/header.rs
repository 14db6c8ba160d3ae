//! The headers of a request, and the text that can be the value of one.

use reqwest::header::{HeaderMap, HeaderValue, InvalidHeaderValue};
use vstd::prelude::*;

verus! {

/// `InvalidHeaderValue`, the error of a text that is refused as a header
/// value.
#[verifier::external_type_specification]
#[verifier::external_body]
pub struct ExInvalidHeaderValue(InvalidHeaderValue);

/// A character that a header value may hold: a tab, or anything from the
/// space upwards but the delete character.
pub open spec fn is_header_char(c: char) -> bool {
    c == '\t' || (c as u32 >= 32 && c as u32 != 127)
}

/// Text made of header characters only.
pub open spec fn is_header_text(text: Seq<char>) -> bool {
    forall|i: int| 0 <= i < text.len() ==> is_header_char(#[trigger] text[i])
}

/// The message of a text that is refused as a header value.
pub open spec fn header_error_text() -> Seq<char> {
    "failed to parse header value"@
}

/// `HeaderValue::from_str`, keeping only whether the text was accepted. It is
/// accepted when every byte of its UTF-8 form is a tab, or at least 32 and not
/// 127; the bytes of a character beyond ASCII are all above 127, so this is
/// `is_header_text`.
#[verifier::external_body]
fn check_header_value(text: &str) -> (checked: Result<(), InvalidHeaderValue>)
    ensures
        checked is Ok <==> is_header_text(text@),
{
    match HeaderValue::from_str(text) {
        Ok(_) => Ok(()),
        Err(error) => Err(error),
    }
}

/// The `Display` text of `InvalidHeaderValue`, which is the same for every
/// value of it.
#[verifier::external_body]
fn invalid_header_value_text(error: &InvalidHeaderValue) -> (text: String)
    ensures
        text@ == header_error_text(),
{
    error.to_string()
}

/// Checks that `text` can be sent as a header value; the error is the
/// message that says it cannot.
pub fn validate_header_text(text: &str) -> (checked: Result<(), String>)
    ensures
        match checked {
            Ok(_) => is_header_text(text@),
            Err(message) => !is_header_text(text@) && message@ == header_error_text(),
        },
{
    match check_header_value(text) {
        Ok(_) => Ok(()),
        Err(error) => Err(invalid_header_value_text(&error)),
    }
}

/// `HeaderMap`, the headers of a request: for each name, taken without regard
/// to case, the values that were given under it.
#[verifier::external_type_specification]
#[verifier::external_body]
#[verifier::reject_recursive_types(T)]
pub struct ExHeaderMap<T>(HeaderMap<T>);

/// What `headers` holds: under each name, written in lower case, the values
/// given under it, in the order in which they were added.
pub uninterp spec fn header_values(headers: HeaderMap<String>) -> Map<Seq<char>, Seq<Seq<char>>>;

/// A character of the header names that this library writes: a letter or
/// digit of ASCII, or a hyphen.
pub open spec fn is_name_char(c: char) -> bool {
    ('a' <= c <= 'z') || ('A' <= c <= 'Z') || ('0' <= c <= '9') || c == '-'
}

/// A header name as this library writes them: between 1 and 64 name
/// characters.
pub open spec fn is_header_name(name: Seq<char>) -> bool {
    &&& 0 < name.len() <= 64
    &&& forall|i: int| 0 <= i < name.len() ==> is_name_char(#[trigger] name[i])
}

/// `c` in lower case, where it is an upper-case letter of ASCII.
pub open spec fn lower_char(c: char) -> char {
    if 'A' <= c <= 'Z' {
        ((c as u8 + 32) as u8) as char
    } else {
        c
    }
}

/// `name` in lower case: the form under which a header map keeps it.
pub open spec fn lower_name(name: Seq<char>) -> Seq<char> {
    Seq::new(name.len(), |i: int| lower_char(name[i]))
}

/// A header map's values when it holds no header.
pub open spec fn no_headers() -> Map<Seq<char>, Seq<Seq<char>>> {
    Map::empty()
}

/// Headers under so few names that another one can always be added.
pub open spec fn few_headers(values: Map<Seq<char>, Seq<Seq<char>>>) -> bool {
    values.dom().finite() && values.dom().len() < 1024
}

/// Every value in `values` can be sent as a header value.
pub open spec fn are_header_texts(values: Map<Seq<char>, Seq<Seq<char>>>) -> bool {
    forall|name: Seq<char>, i: int|
        values.contains_key(name) && 0 <= i < values[name].len() ==> is_header_text(
            #[trigger] values[name][i],
        )
}

/// `values` with `value` as the only value under `name`.
pub open spec fn with_header(
    values: Map<Seq<char>, Seq<Seq<char>>>,
    name: Seq<char>,
    value: Seq<char>,
) -> Map<Seq<char>, Seq<Seq<char>>> {
    values.insert(lower_name(name), seq![value])
}

/// `values` with `value` added after the values that `name` has already.
pub open spec fn with_added_header(
    values: Map<Seq<char>, Seq<Seq<char>>>,
    name: Seq<char>,
    value: Seq<char>,
) -> Map<Seq<char>, Seq<Seq<char>>> {
    let key = lower_name(name);
    let before = if values.contains_key(key) {
        values[key]
    } else {
        Seq::empty()
    };
    values.insert(key, before.push(value))
}

/// Headers under a few names stay few when one more is set or added.
pub proof fn lemma_few_headers(
    values: Map<Seq<char>, Seq<Seq<char>>>,
    name: Seq<char>,
    value: Seq<char>,
)
    requires
        values.dom().finite(),
    ensures
        with_header(values, name, value).dom().finite(),
        with_header(values, name, value).dom().len() <= values.dom().len() + 1,
        with_added_header(values, name, value).dom().finite(),
        with_added_header(values, name, value).dom().len() <= values.dom().len() + 1,
{
    let key = lower_name(name);
    assert(with_header(values, name, value).dom() =~= values.dom().insert(key));
    assert(with_added_header(values, name, value).dom() =~= values.dom().insert(key));
}

/// Values that can be sent stay so when one that can be sent is set or added.
pub proof fn lemma_header_texts(
    values: Map<Seq<char>, Seq<Seq<char>>>,
    name: Seq<char>,
    value: Seq<char>,
)
    requires
        are_header_texts(values),
        is_header_text(value),
    ensures
        are_header_texts(with_header(values, name, value)),
        are_header_texts(with_added_header(values, name, value)),
{
    let key = lower_name(name);
    let set = with_header(values, name, value);
    let added = with_added_header(values, name, value);
    assert forall|other: Seq<char>, i: int|
        set.contains_key(other) && 0 <= i < set[other].len() implies is_header_text(
        #[trigger] set[other][i],
    ) by {
        if other != key {
            assert(set[other][i] == values[other][i]);
        }
    }
    assert forall|other: Seq<char>, i: int|
        added.contains_key(other) && 0 <= i < added[other].len() implies is_header_text(
        #[trigger] added[other][i],
    ) by {
        if other != key {
            assert(added[other][i] == values[other][i]);
        } else if values.contains_key(key) && i < values[key].len() {
            assert(added[other][i] == values[key][i]);
        }
    }
}

/// `HeaderMap::default`: a map without headers.
#[verifier::external_body]
pub(crate) fn empty_headers() -> (headers: HeaderMap<String>)
    ensures
        header_values(headers) == no_headers(),
{
    HeaderMap::default()
}

/// `HeaderMap::insert` with a name given as text: afterwards `value` is the
/// only value under the name, whatever stood there before. The map takes a
/// name of `is_header_name` and keeps it in lower case. It fails when its
/// table cannot grow any further, which is far beyond the names that
/// `few_headers` admits.
#[verifier::external_body]
pub(crate) fn insert_header(headers: &mut HeaderMap<String>, name: &'static str, value: String)
    requires
        is_header_name(name@),
        few_headers(header_values(*old(headers))),
    ensures
        header_values(*final(headers)) == with_header(
            header_values(*old(headers)),
            name@,
            value@,
        ),
{
    headers.insert(name, value);
}

/// `HeaderMap::append` with a name given as text: afterwards `value` is the
/// last of the values under the name, behind those that stood there before.
/// The name and the failure are as for `insert_header`.
#[verifier::external_body]
pub(crate) fn append_header(headers: &mut HeaderMap<String>, name: &'static str, value: String)
    requires
        is_header_name(name@),
        few_headers(header_values(*old(headers))),
    ensures
        header_values(*final(headers)) == with_added_header(
            header_values(*old(headers)),
            name@,
            value@,
        ),
{
    headers.append(name, value);
}

} // verus!
