//! The feed itself: an ordered sequence of posts, oldest first, with unique
//! record keys, bounded by a capacity, and a revision counter that moves on
//! every change.
use vstd::prelude::*;
use std::collections::VecDeque;
use crate::post::{Post, PostView};

verus! {

/// A feed was asked to hold no posts at all.
#[derive(Debug, Clone, Copy, PartialEq, Eq, Structural)]
pub struct CapacityConfigError;

/// The feed was seeded before; a feed is seeded at most once.
#[derive(Debug, Clone, Copy, PartialEq, Eq, Structural)]
pub struct AlreadySeededError;

/// The mathematical state of a [`Feed`].
pub struct FeedModel {
    pub posts: Seq<PostView>,
    pub capacity: nat,
    pub revision: u64,
    pub seeded: bool,
}

pub open spec fn views(s: Seq<Post>) -> Seq<PostView> {
    s.map_values(|p: Post| p@)
}

/// Some post of `s` carries the record key `k`.
pub open spec fn has_key(s: Seq<PostView>, k: Seq<char>) -> bool {
    exists|i: int| 0 <= i < s.len() && #[trigger] s[i].record_key == k
}

/// No two posts of `s` share a record key.
pub open spec fn keys_unique(s: Seq<PostView>) -> bool {
    forall|i: int, j: int|
        0 <= i < s.len() && 0 <= j < s.len() && i != j ==> #[trigger] s[i].record_key
            != #[trigger] s[j].record_key
}

/// The revision that follows `r`; it wraps after the largest value.
pub open spec fn next_revision(r: u64) -> u64 {
    if r < u64::MAX {
        (r + 1) as u64
    } else {
        0
    }
}

/// The last `cap` posts of `s` (all of them when there are no more than `cap`).
pub open spec fn keep_last(s: Seq<PostView>, cap: nat) -> Seq<PostView> {
    if s.len() > cap {
        s.subrange(s.len() - cap, s.len() as int)
    } else {
        s
    }
}

/// A feed with room for `cap` posts, before anything happened to it.
pub open spec fn empty_model(cap: nat) -> FeedModel {
    FeedModel { posts: Seq::empty(), capacity: cap, revision: 0, seeded: false }
}

/// What a well-formed feed satisfies in every state.
pub open spec fn model_wf(m: FeedModel) -> bool {
    &&& m.capacity > 0
    &&& m.posts.len() <= m.capacity
    &&& keys_unique(m.posts)
}

/// Appending one post: a post whose key is present changes nothing; any other
/// goes to the tail, the revision moves on, and the oldest posts beyond the
/// capacity are dropped.
pub open spec fn append_step(m: FeedModel, p: PostView) -> FeedModel {
    if has_key(m.posts, p.record_key) {
        m
    } else {
        FeedModel {
            posts: keep_last(m.posts.push(p), m.capacity),
            capacity: m.capacity,
            revision: next_revision(m.revision),
            seeded: m.seeded,
        }
    }
}

/// Appending the posts of `ps` one after the other, in order.
pub open spec fn append_all(m: FeedModel, ps: Seq<PostView>) -> FeedModel
    decreases ps.len(),
{
    if ps.len() == 0 {
        m
    } else {
        append_step(append_all(m, ps.drop_last()), ps.last())
    }
}

/// Seeding: refused once the feed was seeded; otherwise the feed is marked as
/// seeded and the posts are appended in order.
pub open spec fn seed_step(m: FeedModel, ps: Seq<PostView>) -> Option<FeedModel> {
    if m.seeded {
        None
    } else {
        Some(
            append_all(
                FeedModel { posts: m.posts, capacity: m.capacity, revision: m.revision, seeded: true },
                ps,
            ),
        )
    }
}

pub proof fn lemma_keys_unique_subrange(s: Seq<PostView>, a: int, b: int)
    requires
        keys_unique(s),
        0 <= a <= b <= s.len(),
    ensures
        keys_unique(s.subrange(a, b)),
{
    let t = s.subrange(a, b);
    assert forall|i: int, j: int|
        0 <= i < t.len() && 0 <= j < t.len() && i != j implies #[trigger] t[i].record_key
        != #[trigger] t[j].record_key by {
        assert(t[i] == s[a + i] && t[j] == s[a + j]);
    }
}

/// Each step keeps a well-formed feed well-formed, and keeps its capacity and
/// its seeded mark.
pub proof fn lemma_append_step_wf(m: FeedModel, p: PostView)
    requires
        model_wf(m),
    ensures
        model_wf(append_step(m, p)),
        append_step(m, p).capacity == m.capacity,
        append_step(m, p).seeded == m.seeded,
{
    if !has_key(m.posts, p.record_key) {
        let t = m.posts.push(p);
        assert(keys_unique(t)) by {
            assert forall|i: int, j: int|
                0 <= i < t.len() && 0 <= j < t.len() && i != j implies #[trigger] t[i].record_key
                != #[trigger] t[j].record_key by {
                if i == m.posts.len() {
                    assert(t[j] == m.posts[j]);
                } else if j == m.posts.len() {
                    assert(t[i] == m.posts[i]);
                } else {
                    assert(t[i] == m.posts[i] && t[j] == m.posts[j]);
                }
            }
        }
        if t.len() > m.capacity {
            lemma_keys_unique_subrange(t, t.len() - m.capacity, t.len() as int);
        }
    }
}

pub proof fn lemma_append_all_wf(m: FeedModel, ps: Seq<PostView>)
    requires
        model_wf(m),
    ensures
        model_wf(append_all(m, ps)),
        append_all(m, ps).capacity == m.capacity,
        append_all(m, ps).seeded == m.seeded,
    decreases ps.len(),
{
    if ps.len() > 0 {
        lemma_append_all_wf(m, ps.drop_last());
        lemma_append_step_wf(append_all(m, ps.drop_last()), ps.last());
    }
}

/// The feed: posts oldest first, unique record keys, at most `capacity` posts.
pub struct Feed {
    posts: VecDeque<Post>,
    capacity: usize,
    revision: u64,
    seeded: bool,
}

impl Feed {
    pub closed spec fn model(&self) -> FeedModel {
        FeedModel {
            posts: views(self.posts@),
            capacity: self.capacity as nat,
            revision: self.revision,
            seeded: self.seeded,
        }
    }

    pub open spec fn wf(&self) -> bool {
        model_wf(self.model())
    }

    /// An empty, unseeded feed that keeps at most `capacity` posts.
    pub fn new(capacity: usize) -> (r: Result<Feed, CapacityConfigError>)
        ensures
            capacity == 0 <==> r is Err,
            r matches Ok(f) ==> f.wf() && f.model() == empty_model(capacity as nat),
    {
        if capacity == 0 {
            return Err(CapacityConfigError);
        }
        let f = Feed { posts: VecDeque::new(), capacity, revision: 0, seeded: false };
        assert(views(f.posts@) =~= Seq::<PostView>::empty());
        Ok(f)
    }

    pub fn len(&self) -> (r: usize)
        ensures
            r == self.model().posts.len(),
    {
        self.posts.len()
    }

    pub fn capacity(&self) -> (r: usize)
        ensures
            r == self.model().capacity,
    {
        self.capacity
    }

    pub fn revision(&self) -> (r: u64)
        ensures
            r == self.model().revision,
    {
        self.revision
    }

    pub fn is_seeded(&self) -> (r: bool)
        ensures
            r == self.model().seeded,
    {
        self.seeded
    }

    /// Whether some post of the feed carries the record key `key`.
    pub fn contains_key(&self, key: &String) -> (r: bool)
        ensures
            r == has_key(self.model().posts, key@),
    {
        let ghost s = views(self.posts@);
        let mut i: usize = 0;
        while i < self.posts.len()
            invariant
                0 <= i <= self.posts@.len(),
                s == views(self.posts@),
                forall|j: int| 0 <= j < i ==> s[j].record_key != key@,
            decreases self.posts@.len() - i,
        {
            if self.posts[i].record_key == *key {
                assert(s[i as int].record_key == key@);
                return true;
            }
            i += 1;
        }
        false
    }

    /// Appends `post` at the tail unless a post with its record key is
    /// present; evicts the oldest posts beyond the capacity. Returns whether the
    /// post was taken.
    pub fn append(&mut self, post: Post) -> (taken: bool)
        requires
            old(self).wf(),
        ensures
            final(self).wf(),
            final(self).model().capacity == old(self).model().capacity,
            final(self).model() == append_step(old(self).model(), post@),
            taken == !has_key(old(self).model().posts, post@.record_key),
    {
        proof {
            lemma_append_step_wf(self.model(), post@);
        }
        if self.contains_key(&post.record_key) {
            return false;
        }
        let ghost before = views(self.posts@);
        let ghost p = post@;
        self.posts.push_back(post);
        assert(views(self.posts@) =~= before.push(p));
        self.revision = if self.revision < u64::MAX {
            self.revision + 1
        } else {
            0
        };
        if self.posts.len() > self.capacity {
            let ghost t = views(self.posts@);
            let _ = self.posts.pop_front();
            assert(views(self.posts@) =~= t.subrange(1, t.len() as int));
        }
        true
    }

    /// Seeds the feed once with `posts`, in order (each taken as by
    /// [`Feed::append`]). A second seeding is refused and changes nothing.
    pub fn seed(&mut self, posts: Vec<Post>) -> (r: Result<(), AlreadySeededError>)
        requires
            old(self).wf(),
        ensures
            final(self).wf(),
            final(self).model().capacity == old(self).model().capacity,
            match seed_step(old(self).model(), views(posts@)) {
                None => r is Err && final(self).model() == old(self).model(),
                Some(m) => r is Ok && final(self).model() == m,
            },
    {
        if self.seeded {
            return Err(AlreadySeededError);
        }
        proof {
            lemma_append_all_wf(
                FeedModel { posts: self.model().posts, capacity: self.model().capacity, revision: self.revision, seeded: true },
                views(posts@),
            );
        }
        self.seeded = true;
        let ghost start = self.model();
        let ghost ps = views(posts@);
        let mut i: usize = 0;
        while i < posts.len()
            invariant
                0 <= i <= posts@.len(),
                ps == views(posts@),
                self.wf(),
                self.model() == append_all(start, ps.take(i as int)),
            decreases posts@.len() - i,
        {
            let p = posts[i].clone();
            assert(ps.take(i as int + 1).drop_last() =~= ps.take(i as int));
            assert(ps.take(i as int + 1).last() == p@);
            self.append(p);
            i += 1;
        }
        assert(ps.take(posts@.len() as int) =~= ps);
        Ok(())
    }

    /// A copy of the posts, oldest first, with the revision they belong to.
    pub fn snapshot(&self) -> (r: (Vec<Post>, u64))
        ensures
            views(r.0@) == self.model().posts,
            r.1 == self.model().revision,
    {
        let mut out: Vec<Post> = Vec::new();
        let mut i: usize = 0;
        while i < self.posts.len()
            invariant
                0 <= i <= self.posts@.len(),
                views(out@) == views(self.posts@).take(i as int),
            decreases self.posts@.len() - i,
        {
            let p = self.posts[i].clone();
            let ghost before = out@;
            out.push(p);
            assert(views(out@) =~= views(self.posts@).take(i as int + 1)) by {
                assert(views(out@) =~= views(before).push(p@));
            }
            i += 1;
        }
        assert(views(self.posts@).take(self.posts@.len() as int) =~= views(self.posts@));
        (out, self.revision)
    }
}

} // verus!
