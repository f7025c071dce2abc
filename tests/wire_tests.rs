use picosky_feed::{
    decode_history, decode_post, history_from_objects, is_create_event, post_from_object,
    DecodeError, Feed, FetchError, IngestSession, IngestStep, Post, StreamError, StreamEvent,
    WireField,
};
use serde_json::Value;

const TAG: &str = "social.psky.feed.post#create";

fn frame(key: &str, at: u64) -> String {
    format!(
        "{{\"$type\":\"{}\",\"did\":\"did:plc:{}\",\"handle\":\"{}.example\",\"indexedAt\":{},\"nickname\":null,\"post\":\"text {}\",\"rkey\":\"{}\",\"cid\":\"c{}\"}}",
        TAG, key, key, at, key, key, key
    )
}

fn expected(key: &str, at: u64) -> Post {
    Post::new(
        format!("did:plc:{}", key),
        format!("{}.example", key),
        None,
        format!("text {}", key),
        key.to_string(),
        at,
    )
}

fn object(key: &str, at: u64) -> serde_json::Map<String, Value> {
    let mut m = serde_json::Map::new();
    m.insert("did".to_string(), Value::String(format!("did:plc:{}", key)));
    m.insert("handle".to_string(), Value::String(format!("{}.example", key)));
    m.insert("indexedAt".to_string(), Value::from(at));
    m.insert("nickname".to_string(), Value::Null);
    m.insert("post".to_string(), Value::String(format!("text {}", key)));
    m.insert("rkey".to_string(), Value::String(key.to_string()));
    m
}

#[test]
fn decode_reads_every_member() {
    let p = decode_post(&frame("abc", 42)).unwrap();
    assert_eq!(p, expected("abc", 42));
}

#[test]
fn decode_takes_a_string_nickname() {
    let text = "{\"did\":\"d\",\"handle\":\"\",\"indexedAt\":5,\"nickname\":\"Nick\",\"post\":\"p\",\"rkey\":\"r\"}";
    let p = decode_post(text).unwrap();
    assert_eq!(p.author_nickname, Some("Nick".to_string()));
    assert_eq!(p.author_handle, "");
    assert_eq!(p.indexed_at, 5);
}

#[test]
fn decode_without_nickname_member() {
    let text = "{\"did\":\"d\",\"handle\":\"h\",\"indexedAt\":5,\"post\":\"p\",\"rkey\":\"r\"}";
    assert_eq!(decode_post(text).unwrap().author_nickname, None);
}

#[test]
fn decode_rejects_malformed_json() {
    assert_eq!(decode_post("{\"did\": \"x\", "), Err(DecodeError::NotAnObject));
    assert_eq!(decode_post("[1, 2]"), Err(DecodeError::NotAnObject));
    assert_eq!(decode_post(""), Err(DecodeError::NotAnObject));
}

#[test]
fn decode_names_the_first_missing_member() {
    let no_key = "{\"did\":\"d\",\"handle\":\"h\",\"indexedAt\":5,\"post\":\"p\"}";
    assert_eq!(decode_post(no_key), Err(DecodeError::Missing(WireField::RecordKey)));
    let no_did = "{\"handle\":\"h\",\"indexedAt\":5,\"post\":\"p\",\"rkey\":\"r\"}";
    assert_eq!(decode_post(no_did), Err(DecodeError::Missing(WireField::AuthorId)));
    let no_handle = "{\"did\":\"d\",\"indexedAt\":5,\"post\":\"p\",\"rkey\":\"r\"}";
    assert_eq!(decode_post(no_handle), Err(DecodeError::Missing(WireField::AuthorHandle)));
    let no_body = "{\"did\":\"d\",\"handle\":\"h\",\"indexedAt\":5,\"rkey\":\"r\"}";
    assert_eq!(decode_post(no_body), Err(DecodeError::Missing(WireField::Body)));
    let negative = "{\"did\":\"d\",\"handle\":\"h\",\"indexedAt\":-5,\"post\":\"p\",\"rkey\":\"r\"}";
    assert_eq!(decode_post(negative), Err(DecodeError::Missing(WireField::IndexedAt)));
    let as_text = "{\"did\":\"d\",\"handle\":\"h\",\"indexedAt\":\"5\",\"post\":\"p\",\"rkey\":\"r\"}";
    assert_eq!(decode_post(as_text), Err(DecodeError::Missing(WireField::IndexedAt)));
}

#[test]
fn post_from_object_reads_members() {
    assert_eq!(post_from_object(&object("k", 9)).unwrap(), expected("k", 9));
    let mut m = object("k", 9);
    m.insert("nickname".to_string(), Value::String("N".to_string()));
    assert_eq!(post_from_object(&m).unwrap().author_nickname, Some("N".to_string()));
    m.remove("did");
    assert_eq!(post_from_object(&m), Err(DecodeError::Missing(WireField::AuthorId)));
}

#[test]
fn create_tag_is_recognised() {
    assert!(is_create_event(&frame("a", 1)));
    assert!(!is_create_event("{\"$type\":\"social.psky.feed.post#update\"}"));
    assert!(!is_create_event(""));
    assert!(is_create_event(TAG));
}

#[test]
fn unrelated_event_is_ignored() {
    let mut feed = Feed::new(10).unwrap();
    feed.seed(vec![expected("a", 1)]).unwrap();
    let mut session = IngestSession::new();
    let text = "{\"$type\":\"social.psky.actor.profile#update\",\"did\":\"d\"}".to_string();
    assert_eq!(session.step(StreamEvent::Text(text)), IngestStep::Ignore);
    assert_eq!(feed.len(), 1);
    assert_eq!(session.ignored, 1);
    assert_eq!(session.delivered, 0);
}

#[test]
fn malformed_frame_fails_alone() {
    let mut feed = Feed::new(10).unwrap();
    feed.seed(Vec::new()).unwrap();
    let mut session = IngestSession::new();
    let broken = format!("{{\"$type\":\"{}\",\"did\":", TAG);
    assert_eq!(
        session.step(StreamEvent::Text(broken)),
        IngestStep::Discard(DecodeError::NotAnObject)
    );
    assert_eq!(session.decode_errors, 1);
    assert!(!session.finished);
    match session.step(StreamEvent::Text(frame("next", 2))) {
        IngestStep::Deliver(p) => {
            assert_eq!(p, expected("next", 2));
            assert!(feed.append(p));
        }
        other => panic!("expected a post, got {:?}", other),
    }
    assert_eq!(feed.len(), 1);
    assert_eq!(session.delivered, 1);
}

#[test]
fn non_text_frames_are_ignored() {
    let mut session = IngestSession::new();
    assert_eq!(session.step(StreamEvent::NonText), IngestStep::Ignore);
    assert_eq!(session.ignored, 1);
    assert!(!session.finished);
}

#[test]
fn connection_events_end_the_session() {
    let mut closed = IngestSession::new();
    assert_eq!(closed.step(StreamEvent::Closed), IngestStep::End(StreamError::Closed));
    assert!(closed.finished);
    assert_eq!(closed.step(StreamEvent::Text(frame("a", 1))), IngestStep::Stop);
    assert_eq!(closed.delivered, 0);

    let mut failed = IngestSession::new();
    assert_eq!(failed.step(StreamEvent::Failed), IngestStep::End(StreamError::Failed));
    let mut slow = IngestSession::new();
    assert_eq!(slow.step(StreamEvent::TimedOut), IngestStep::End(StreamError::TimedOut));
    let mut quit = IngestSession::new();
    assert_eq!(quit.step(StreamEvent::Cancelled), IngestStep::Stop);
    assert!(quit.finished);
}

#[test]
fn history_is_reversed_to_oldest_first() {
    let page = format!(
        "{{\"cursor\":0,\"posts\":[{},{}]}}",
        frame("p2", 2),
        frame("p1", 1)
    );
    let history = decode_history(&page).unwrap();
    assert_eq!(history, vec![expected("p1", 1), expected("p2", 2)]);
    let mut feed = Feed::new(20).unwrap();
    feed.seed(history).unwrap();
    let (posts, _) = feed.snapshot();
    assert_eq!(posts, vec![expected("p1", 1), expected("p2", 2)]);
}

#[test]
fn history_from_objects_reverses_entries() {
    let entries = vec![object("c", 3), object("b", 2), object("a", 1)];
    let posts = history_from_objects(&entries).unwrap();
    assert_eq!(posts, vec![expected("a", 1), expected("b", 2), expected("c", 3)]);
    assert_eq!(history_from_objects(&Vec::new()).unwrap(), Vec::<Post>::new());
}

#[test]
fn history_entry_error_is_the_first_in_wire_order() {
    let mut bad_new = object("c", 3);
    bad_new.remove("rkey");
    let mut bad_old = object("a", 1);
    bad_old.remove("post");
    let entries = vec![bad_new, object("b", 2), bad_old];
    assert_eq!(
        history_from_objects(&entries),
        Err(DecodeError::Missing(WireField::RecordKey))
    );
}

#[test]
fn history_page_errors() {
    assert_eq!(decode_history("not json"), Err(FetchError::Malformed));
    assert_eq!(decode_history("{\"cursor\":0}"), Err(FetchError::Malformed));
    assert_eq!(decode_history("{\"cursor\":0,\"posts\":[1,2]}"), Err(FetchError::Malformed));
    assert_eq!(decode_history("{\"cursor\":0,\"posts\":[{\"did\":\"d\"}]}"), Err(FetchError::Malformed));
    assert_eq!(decode_history("{\"cursor\":0,\"posts\":[]}"), Ok(Vec::new()));
}

#[test]
fn history_page_needs_numeric_cursor() {
    let entries = format!("[{}]", frame("p1", 1));
    let without = format!("{{\"posts\":{}}}", entries);
    assert_eq!(decode_history(&without), Err(FetchError::Malformed));
    let as_text = format!("{{\"cursor\":\"0\",\"posts\":{}}}", entries);
    assert_eq!(decode_history(&as_text), Err(FetchError::Malformed));
    let with = format!("{{\"cursor\":17,\"posts\":{}}}", entries);
    assert_eq!(decode_history(&with), Ok(vec![expected("p1", 1)]));
}

#[test]
fn malformed_frame_counts_once_and_session_goes_on() {
    let mut session = IngestSession::new();
    let broken = format!("{{\"$type\":\"{}\"", TAG);
    let missing = format!("{{\"$type\":\"{}\",\"did\":\"d\"}}", TAG);
    assert_eq!(
        session.step(StreamEvent::Text(broken)),
        IngestStep::Discard(DecodeError::NotAnObject)
    );
    assert_eq!(
        session.step(StreamEvent::Text(missing)),
        IngestStep::Discard(DecodeError::Missing(WireField::AuthorHandle))
    );
    assert_eq!(session.decode_errors, 2);
    assert_eq!(session.step(StreamEvent::Text(frame("ok", 3))), IngestStep::Deliver(expected("ok", 3)));
    assert_eq!(session.delivered, 1);
    assert!(!session.finished);
}
