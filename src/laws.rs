//! What holds of every run of the feed's operations.
use vstd::prelude::*;
use crate::post::PostView;
use crate::ingest::{session_after, step_outcome, IngestSession, StepView, StreamEvent};
use crate::wire::{decoded, has_infix, CREATE_EVENT_TAG};
use crate::feed::{
    append_all, append_step, empty_model, has_key, keep_last, keys_unique, lemma_append_all_wf,
    lemma_keys_unique_subrange, model_wf, seed_step, FeedModel,
};

verus! {

proof fn lemma_append_all_fresh(m: FeedModel, ps: Seq<PostView>)
    requires
        keys_unique(m.posts + ps),
        m.posts.len() + ps.len() <= m.capacity,
    ensures
        append_all(m, ps).posts == m.posts + ps,
    decreases ps.len(),
{
    if ps.len() > 0 {
        let q = ps.drop_last();
        let all = m.posts + ps;
        assert(all.subrange(0, all.len() - 1) =~= m.posts + q);
        lemma_keys_unique_subrange(all, 0, all.len() - 1);
        lemma_append_all_fresh(m, q);
        lemma_append_all_capacity(m, q);
        let before = append_all(m, q);
        let p = ps.last();
        assert(all[all.len() - 1] == p);
        assert(!has_key(before.posts, p.record_key)) by {
            if has_key(before.posts, p.record_key) {
                let i = choose|i: int| 0 <= i < before.posts.len() && #[trigger] before.posts[i].record_key == p.record_key;
                assert(all[i] == before.posts[i]);
            }
        }
        assert(before.posts.push(p) =~= all);
    }
}

/// Seeding a fresh feed and then appending posts, where all record keys are
/// distinct and all posts fit within the capacity, leaves exactly the seeded
/// posts followed by the appended ones, in that order.
pub proof fn law_seed_then_append_keeps_order(
    cap: nat,
    seeded: Seq<PostView>,
    appended: Seq<PostView>,
)
    requires
        keys_unique(seeded + appended),
        seeded.len() + appended.len() <= cap,
    ensures
        seed_step(empty_model(cap), seeded) matches Some(m) && append_all(m, appended).posts
            == seeded + appended,
{
    let all = seeded + appended;
    let m0 = FeedModel { posts: Seq::empty(), capacity: cap, revision: 0, seeded: true };
    assert(all.subrange(0, seeded.len() as int) =~= seeded);
    lemma_keys_unique_subrange(all, 0, seeded.len() as int);
    assert(m0.posts + seeded =~= seeded);
    lemma_append_all_fresh(m0, seeded);
    lemma_append_all_capacity(m0, seeded);
    let m = append_all(m0, seeded);
    lemma_append_all_fresh(m, appended);
}

/// Appending a post whose record key is already present changes nothing:
/// neither the posts, their order, nor the revision.
pub proof fn law_duplicate_append_is_noop(m: FeedModel, p: PostView)
    requires
        has_key(m.posts, p.record_key),
    ensures
        append_step(m, p) == m,
{
}

proof fn lemma_fill_from_empty(m: FeedModel, ps: Seq<PostView>)
    requires
        m.posts.len() == 0,
        m.capacity > 0,
        keys_unique(ps),
    ensures
        append_all(m, ps).posts == keep_last(ps, m.capacity),
    decreases ps.len(),
{
    if ps.len() > 0 {
        let q = ps.drop_last();
        let p = ps.last();
        let cap = m.capacity;
        lemma_keys_unique_subrange(ps, 0, ps.len() - 1);
        assert(ps.subrange(0, ps.len() - 1) =~= q);
        lemma_fill_from_empty(m, q);
        let before = append_all(m, q);
        let start: int = if q.len() > cap { q.len() - cap } else { 0 };
        assert(before.posts =~= q.subrange(start, q.len() as int));
        assert(!has_key(before.posts, p.record_key)) by {
            if has_key(before.posts, p.record_key) {
                let i = choose|i: int| 0 <= i < before.posts.len() && #[trigger] before.posts[i].record_key == p.record_key;
                assert(before.posts[i] == ps[start + i]);
                assert(ps[ps.len() - 1] == p);
            }
        }
        assert(before.capacity == cap) by {
            lemma_append_all_capacity(m, q);
        }
        let t = before.posts.push(p);
        if q.len() >= cap {
            assert(t.subrange(t.len() - cap, t.len() as int) =~= ps.subrange(
                ps.len() - cap,
                ps.len() as int,
            ));
        } else {
            assert(t =~= ps);
        }
    }
}

proof fn lemma_append_all_capacity(m: FeedModel, ps: Seq<PostView>)
    ensures
        append_all(m, ps).capacity == m.capacity,
        append_all(m, ps).seeded == m.seeded,
    decreases ps.len(),
{
    if ps.len() > 0 {
        lemma_append_all_capacity(m, ps.drop_last());
    }
}

/// With capacity `cap`, a feed seeded with nothing and then given posts with
/// distinct record keys never holds more than `cap` posts, and holds exactly
/// the `cap` most recently appended ones (the oldest are evicted first).
pub proof fn law_capacity_keeps_most_recent(cap: nat, ps: Seq<PostView>)
    requires
        cap > 0,
        keys_unique(ps),
    ensures
        seed_step(empty_model(cap), Seq::empty()) matches Some(m) && {
            let after = append_all(m, ps);
            &&& after.posts.len() <= cap
            &&& after.posts == keep_last(ps, cap)
        },
{
    let m = FeedModel { posts: Seq::empty(), capacity: cap, revision: 0, seeded: true };
    assert(append_all(m, Seq::empty()) == m);
    lemma_fill_from_empty(m, ps);
}

/// Once a seeding succeeded, every later seeding is refused, whatever
/// was appended in between; a refused seeding leaves the feed as it was.
pub proof fn law_second_seed_fails(
    m: FeedModel,
    first: Seq<PostView>,
    between: Seq<PostView>,
    second: Seq<PostView>,
)
    requires
        seed_step(m, first) is Some,
    ensures
        seed_step(append_all(seed_step(m, first)->0, between), second) is None,
{
    let s = seed_step(m, first)->0;
    let unseeded = FeedModel { posts: m.posts, capacity: m.capacity, revision: m.revision, seeded: true };
    lemma_append_all_capacity(unseeded, first);
    lemma_append_all_capacity(s, between);
}

/// Every sequence of appends keeps a well-formed feed well-formed: record keys
/// stay unique and the capacity is never exceeded.
pub proof fn law_appends_keep_feed_valid(m: FeedModel, ps: Seq<PostView>)
    requires
        model_wf(m),
    ensures
        model_wf(append_all(m, ps)),
        append_all(m, ps).posts.len() <= m.capacity,
{
    lemma_append_all_wf(m, ps);
}

/// A tagged frame that does not decode is discarded with its decode error,
/// counted exactly once (below the counter's largest value), and leaves the
/// subscription running: the next tagged frame that decodes is delivered as
/// its post.
pub proof fn law_bad_frame_fails_alone(s: IngestSession, bad: StreamEvent, good: StreamEvent)
    requires
        !s.finished,
        s.decode_errors < u64::MAX,
        bad matches StreamEvent::Text(t) && has_infix(t@, CREATE_EVENT_TAG@) && decoded(t@) is Err,
        good matches StreamEvent::Text(u) && has_infix(u@, CREATE_EVENT_TAG@) && decoded(u@) is Ok,
    ensures
        bad matches StreamEvent::Text(t) && step_outcome(s, bad) == StepView::Discard(
            decoded(t@)->Err_0,
        ),
        session_after(s, bad) == (IngestSession {
            decode_errors: (s.decode_errors + 1) as u64,
            ..s
        }),
        good matches StreamEvent::Text(u) && step_outcome(session_after(s, bad), good)
            == StepView::Deliver(decoded(u@)->Ok_0),
{
}

} // verus!
