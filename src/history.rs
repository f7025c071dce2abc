//! The one-time history backfill: a page of recent posts, which the origin
//! delivers newest first, turned into posts oldest first.
use vstd::prelude::*;
use crate::post::{Post, PostView};
use crate::feed::views;
use crate::wire::{
    is_json_object, object_of, parse_object, post_from_object, post_of_object, u64_member,
    u64_members, DecodeError, JsonObject,
};

verus! {

/// Why the history could not be had.
#[derive(Debug, Clone, Copy, PartialEq, Eq, Structural)]
pub enum FetchError {
    /// The request did not reach the origin, or its answer was cut off.
    Network,
    /// The origin answered with this non-success status.
    Status(u16),
    /// The answer is not a page of posts.
    Malformed,
}

/// The posts that `objs` stand for, in the same order, or the error of the
/// first entry that is no post.
pub open spec fn decode_objects(objs: Seq<JsonObject>) -> Result<Seq<PostView>, DecodeError>
    decreases objs.len(),
{
    if objs.len() == 0 {
        Ok(Seq::empty())
    } else {
        match decode_objects(objs.drop_last()) {
            Err(e) => Err(e),
            Ok(done) => match post_of_object(objs.last()) {
                Err(e) => Err(e),
                Ok(p) => Ok(done.push(p)),
            },
        }
    }
}

/// `s` back to front.
pub open spec fn reversed(s: Seq<PostView>) -> Seq<PostView> {
    Seq::new(s.len(), |i: int| s[s.len() - 1 - i])
}

/// The posts of a page, oldest first, out of its entries newest first.
pub open spec fn history_of(objs: Seq<JsonObject>) -> Result<Seq<PostView>, DecodeError> {
    match decode_objects(objs) {
        Err(e) => Err(e),
        Ok(s) => Ok(reversed(s)),
    }
}

/// The member of `m` named `key` read as an array of JSON objects, when it is
/// one.
pub uninterp spec fn entries_of(
    m: serde_json::Map<String, serde_json::Value>,
    key: Seq<char>,
) -> Option<Seq<serde_json::Map<String, serde_json::Value>>>;

/// Relies on serde_json::Map::get and serde_json::from_value: the member named
/// `key` read as an array of JSON objects, if it is one.
#[verifier::external_body]
fn object_list_member(m: &JsonObject, key: &str) -> (r: Option<Vec<JsonObject>>)
    ensures
        match entries_of(*m, key@) {
            Some(s) => r matches Some(v) && v@ == s,
            None => r is None,
        },
{
    match m.get(key) {
        Some(v) => serde_json::from_value(v.clone()).ok(),
        None => None,
    }
}

/// Turns the entries of a history page, newest first as the origin sends
/// them, into posts oldest first.
pub fn history_from_objects(objs: &Vec<JsonObject>) -> (r: Result<Vec<Post>, DecodeError>)
    ensures
        match history_of(objs@) {
            Ok(s) => r matches Ok(v) && views(v@) == s,
            Err(e) => r == Err::<Vec<Post>, DecodeError>(e),
        },
{
    let mut wire_order: Vec<Post> = Vec::new();
    let mut i: usize = 0;
    assert(objs@.take(0) =~= Seq::<JsonObject>::empty());
    assert(views(wire_order@) =~= Seq::<PostView>::empty());
    while i < objs.len()
        invariant
            0 <= i <= objs@.len(),
            decode_objects(objs@.take(i as int)) == Ok::<Seq<PostView>, DecodeError>(
                views(wire_order@),
            ),
        decreases objs@.len() - i,
    {
        assert(objs@.take(i as int + 1).drop_last() =~= objs@.take(i as int));
        assert(objs@.take(i as int + 1).last() == objs@[i as int]);
        match post_from_object(&objs[i]) {
            Err(e) => {
                proof {
                    lemma_decode_error_stays(objs@, i as int + 1);
                }
                return Err(e);
            },
            Ok(p) => {
                let ghost before = wire_order@;
                wire_order.push(p);
                assert(views(wire_order@) =~= views(before).push(p@));
            },
        }
        i += 1;
    }
    assert(objs@.take(objs@.len() as int) =~= objs@);
    let ghost s = views(wire_order@);
    let mut out: Vec<Post> = Vec::new();
    let mut j: usize = wire_order.len();
    while j > 0
        invariant
            0 <= j <= wire_order@.len(),
            s == views(wire_order@),
            views(out@) == reversed(s).take(s.len() - j),
        decreases j,
    {
        j -= 1;
        let ghost before = out@;
        out.push(wire_order[j].clone());
        assert(views(out@) =~= reversed(s).take(s.len() - j)) by {
            assert(views(out@) =~= views(before).push(s[j as int]));
        }
    }
    assert(reversed(s).take(s.len() as int) =~= reversed(s));
    Ok(out)
}

proof fn lemma_decode_error_stays(objs: Seq<JsonObject>, n: int)
    requires
        0 <= n <= objs.len(),
        decode_objects(objs.take(n)) is Err,
    ensures
        decode_objects(objs) == decode_objects(objs.take(n)),
    decreases objs.len() - n,
{
    if n < objs.len() {
        assert(objs.take(n + 1).drop_last() =~= objs.take(n));
        lemma_decode_error_stays(objs, n + 1);
    } else {
        assert(objs.take(n) =~= objs);
    }
}

/// What reading a page's text gives: its posts oldest first, when it is a
/// JSON object whose `cursor` is a number and whose `posts` is an array of
/// posts; `Malformed` otherwise.
pub open spec fn page_history(text: Seq<char>) -> Result<Seq<PostView>, FetchError> {
    if !is_json_object(text) {
        Err(FetchError::Malformed)
    } else if !u64_members(object_of(text)).contains_key("cursor"@) {
        Err(FetchError::Malformed)
    } else {
        match entries_of(object_of(text), "posts"@) {
            None => Err(FetchError::Malformed),
            Some(objs) => match history_of(objs) {
                Ok(s) => Ok(s),
                Err(_) => Err(FetchError::Malformed),
            },
        }
    }
}

/// Reads a history page, a JSON object with a numeric `cursor` and a member
/// `posts` that is an array of posts newest first, into posts oldest first.
pub fn decode_history(text: &str) -> (r: Result<Vec<Post>, FetchError>)
    ensures
        match r {
            Ok(v) => Ok(views(v@)),
            Err(e) => Err(e),
        } == page_history(text@),
{
    let page = match parse_object(text) {
        Ok(page) => page,
        Err(_) => return Err(FetchError::Malformed),
    };
    if u64_member(&page, "cursor").is_none() {
        return Err(FetchError::Malformed);
    }
    let entries = match object_list_member(&page, "posts") {
        Some(entries) => entries,
        None => return Err(FetchError::Malformed),
    };
    match history_from_objects(&entries) {
        Ok(v) => Ok(v),
        Err(_) => Err(FetchError::Malformed),
    }
}

} // verus!
