//! The wire shape of a post: a JSON object with the members `did`,
//! `handle`, `indexedAt`, `nickname`, `post` and `rkey`, read with serde_json.
use vstd::prelude::*;
use crate::post::{Post, PostView};

verus! {

#[verifier::external_type_specification]
#[verifier::external_body]
pub struct ExJsonValue(serde_json::Value);

#[verifier::external_type_specification]
#[verifier::external_body]
#[verifier::reject_recursive_types(K)]
#[verifier::reject_recursive_types(V)]
pub struct ExJsonMap<K, V>(serde_json::Map<K, V>);

#[verifier::external_type_specification]
#[verifier::external_body]
pub struct ExJsonError(serde_json::Error);

/// A JSON object as serde_json holds it.
pub type JsonObject = serde_json::Map<String, serde_json::Value>;

/// Whether serde_json reads `text` as one JSON object.
pub uninterp spec fn is_json_object(text: Seq<char>) -> bool;

/// The JSON object that serde_json reads out of `text`, when it reads one.
pub uninterp spec fn object_of(text: Seq<char>) -> serde_json::Map<String, serde_json::Value>;

/// The members of `m` whose value is a JSON string, each with that string.
pub uninterp spec fn text_members(m: serde_json::Map<String, serde_json::Value>) -> Map<
    Seq<char>,
    Seq<char>,
>;

/// The members of `m` whose value is a JSON number that a `u64` holds, each
/// with that number.
pub uninterp spec fn u64_members(m: serde_json::Map<String, serde_json::Value>) -> Map<
    Seq<char>,
    u64,
>;

/// Relies on serde_json::from_str into a `Map<String, Value>`: it succeeds
/// exactly on the texts that hold one JSON object.
#[verifier::external_body]
pub(crate) fn parse_object(text: &str) -> (r: Result<JsonObject, serde_json::Error>)
    ensures
        r is Ok == is_json_object(text@),
        r matches Ok(m) ==> m == object_of(text@),
{
    serde_json::from_str(text)
}

/// Relies on serde_json::Map::get and serde_json::Value::as_str: the member
/// named `key` when its value is a JSON string.
#[verifier::external_body]
fn text_member(m: &JsonObject, key: &str) -> (r: Option<String>)
    ensures
        r is Some == text_members(*m).contains_key(key@),
        r matches Some(s) ==> s@ == text_members(*m)[key@],
{
    m.get(key).and_then(serde_json::Value::as_str).map(String::from)
}

/// Relies on serde_json::Map::get and serde_json::Value::as_u64: the member
/// named `key` when its value is a number that a `u64` holds.
#[verifier::external_body]
pub(crate) fn u64_member(m: &JsonObject, key: &str) -> (r: Option<u64>)
    ensures
        r is Some == u64_members(*m).contains_key(key@),
        r matches Some(n) ==> n == u64_members(*m)[key@],
{
    m.get(key).and_then(serde_json::Value::as_u64)
}

/// A member of the wire shape that a post cannot do without.
#[derive(Debug, Clone, Copy, PartialEq, Eq, Structural)]
pub enum WireField {
    AuthorId,
    AuthorHandle,
    IndexedAt,
    Body,
    RecordKey,
}

/// Why one frame or one history entry could not be read as a post.
#[derive(Debug, Clone, Copy, PartialEq, Eq, Structural)]
pub enum DecodeError {
    /// The text is not one JSON object.
    NotAnObject,
    /// A required member is absent or of the wrong JSON type.
    Missing(WireField),
}

/// The post that an object with these string and number members stands for.
/// `did`, `handle`, `post` and `rkey` must be strings and `indexedAt` a
/// number that a `u64` holds, checked in that order; `nickname` is taken when
/// it is a string and left out otherwise (absent or null).
pub open spec fn post_from_members(
    texts: Map<Seq<char>, Seq<char>>,
    nums: Map<Seq<char>, u64>,
) -> Result<PostView, DecodeError> {
    if !texts.contains_key("did"@) {
        Err(DecodeError::Missing(WireField::AuthorId))
    } else if !texts.contains_key("handle"@) {
        Err(DecodeError::Missing(WireField::AuthorHandle))
    } else if !nums.contains_key("indexedAt"@) {
        Err(DecodeError::Missing(WireField::IndexedAt))
    } else if !texts.contains_key("post"@) {
        Err(DecodeError::Missing(WireField::Body))
    } else if !texts.contains_key("rkey"@) {
        Err(DecodeError::Missing(WireField::RecordKey))
    } else {
        Ok(
            PostView {
                author_id: texts["did"@],
                author_handle: texts["handle"@],
                author_nickname: if texts.contains_key("nickname"@) {
                    Some(texts["nickname"@])
                } else {
                    None
                },
                body: texts["post"@],
                record_key: texts["rkey"@],
                indexed_at: nums["indexedAt"@],
            },
        )
    }
}

/// The post that a JSON object stands for, read by its members.
pub open spec fn post_of_object(m: JsonObject) -> Result<PostView, DecodeError> {
    post_from_members(text_members(m), u64_members(m))
}

pub open spec fn result_view(r: Result<Post, DecodeError>) -> Result<PostView, DecodeError> {
    match r {
        Ok(p) => Ok(p@),
        Err(e) => Err(e),
    }
}

/// What decoding `text` gives: `NotAnObject` when it is no JSON object,
/// and otherwise the post (or the missing member) of the object it holds.
pub open spec fn decoded(text: Seq<char>) -> Result<PostView, DecodeError> {
    if is_json_object(text) {
        post_of_object(object_of(text))
    } else {
        Err(DecodeError::NotAnObject)
    }
}

/// Reads a post out of a JSON object.
pub fn post_from_object(obj: &JsonObject) -> (r: Result<Post, DecodeError>)
    ensures
        result_view(r) == post_of_object(*obj),
{
    let author_id = match text_member(obj, "did") {
        Some(s) => s,
        None => return Err(DecodeError::Missing(WireField::AuthorId)),
    };
    let author_handle = match text_member(obj, "handle") {
        Some(s) => s,
        None => return Err(DecodeError::Missing(WireField::AuthorHandle)),
    };
    let indexed_at = match u64_member(obj, "indexedAt") {
        Some(n) => n,
        None => return Err(DecodeError::Missing(WireField::IndexedAt)),
    };
    let body = match text_member(obj, "post") {
        Some(s) => s,
        None => return Err(DecodeError::Missing(WireField::Body)),
    };
    let record_key = match text_member(obj, "rkey") {
        Some(s) => s,
        None => return Err(DecodeError::Missing(WireField::RecordKey)),
    };
    let author_nickname = text_member(obj, "nickname");
    Ok(Post { author_id, author_handle, author_nickname, body, record_key, indexed_at })
}

/// Reads a post out of the text of one frame.
pub fn decode_post(text: &str) -> (r: Result<Post, DecodeError>)
    ensures
        result_view(r) == decoded(text@),
{
    match parse_object(text) {
        Err(_) => Err(DecodeError::NotAnObject),
        Ok(obj) => post_from_object(&obj),
    }
}

/// `pat` occurs in `s` as a run of consecutive characters.
pub open spec fn has_infix(s: Seq<char>, pat: Seq<char>) -> bool {
    exists|i: int| 0 <= i && i + pat.len() <= s.len() && #[trigger] s.subrange(i, i + pat.len()) == pat
}

/// Relies on str::contains with a `&str` pattern: whether `pat` occurs in `s`.
#[verifier::external_body]
fn contains_text(s: &str, pat: &str) -> (r: bool)
    ensures
        r == has_infix(s@, pat@),
{
    s.contains(pat)
}

/// The event type that marks a frame as the creation of a post.
pub const CREATE_EVENT_TAG: &'static str = "social.psky.feed.post#create";

/// Whether a frame's text tags the creation of a post.
pub fn is_create_event(text: &str) -> (r: bool)
    ensures
        r == has_infix(text@, CREATE_EVENT_TAG@),
{
    contains_text(text, CREATE_EVENT_TAG)
}

} // verus!
