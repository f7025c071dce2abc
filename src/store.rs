//! The feed shared between one writer (seeding, then live ingestion) and any
//! number of readers (rendering), behind a single reader-writer lock.
use vstd::prelude::*;
use vstd::rwlock::{RwLock, RwLockPredicate};
use crate::post::Post;
use crate::feed::{keys_unique, views, AlreadySeededError, CapacityConfigError, Feed};

verus! {

/// What the lock guarantees of the feed it guards in every state: it is
/// well-formed and keeps the capacity the store was made with.
pub struct FeedInvariant {
    pub capacity: usize,
}

impl RwLockPredicate<Feed> for FeedInvariant {
    open spec fn inv(self, v: Feed) -> bool {
        v.wf() && v.model().capacity == self.capacity
    }
}

/// The single shared feed. Every change and every copy happens while the lock
/// is held, so a reader sees the feed either before or after a change, never
/// in between. No I/O happens under the lock.
pub struct FeedStore {
    lock: RwLock<Feed, FeedInvariant>,
    capacity: usize,
}

impl FeedStore {
    #[verifier::type_invariant]
    spec fn lock_matches(&self) -> bool {
        &&& self.lock.pred() == FeedInvariant { capacity: self.capacity }
        &&& self.capacity > 0
    }

    pub closed spec fn spec_capacity(&self) -> nat {
        self.capacity as nat
    }

    /// A store holding an empty, unseeded feed of the given capacity.
    pub fn new(capacity: usize) -> (r: Result<FeedStore, CapacityConfigError>)
        ensures
            capacity == 0 <==> r is Err,
            r matches Ok(s) ==> s.spec_capacity() == capacity,
    {
        match Feed::new(capacity) {
            Err(e) => Err(e),
            Ok(feed) => {
                let lock = RwLock::new(feed, Ghost(FeedInvariant { capacity }));
                Ok(FeedStore { lock, capacity })
            },
        }
    }

    pub fn capacity(&self) -> (r: usize)
        ensures
            r == self.spec_capacity(),
            r > 0,
    {
        proof {
            use_type_invariant(self);
        }
        self.capacity
    }

    /// Seeds the shared feed as [`Feed::seed`] does, atomically.
    pub fn seed(&self, posts: Vec<Post>) -> (r: Result<(), AlreadySeededError>) {
        proof {
            use_type_invariant(self);
        }
        let (mut feed, handle) = self.lock.acquire_write();
        let r = feed.seed(posts);
        handle.release_write(feed);
        r
    }

    /// Appends to the shared feed as [`Feed::append`] does, atomically.
    /// Returns whether the post was taken (its record key was new).
    pub fn append(&self, post: Post) -> (taken: bool) {
        proof {
            use_type_invariant(self);
        }
        let (mut feed, handle) = self.lock.acquire_write();
        let taken = feed.append(post);
        handle.release_write(feed);
        taken
    }

    /// A copy of the feed at one point in time, oldest first, with its
    /// revision. Whatever runs at the same time, the copy is a state the feed
    /// was in: record keys are unique and there are at most `capacity` posts.
    pub fn snapshot(&self) -> (r: (Vec<Post>, u64))
        ensures
            keys_unique(views(r.0@)),
            r.0@.len() <= self.spec_capacity(),
    {
        proof {
            use_type_invariant(self);
        }
        let handle = self.lock.acquire_read();
        let r = handle.borrow().snapshot();
        handle.release_read();
        r
    }
}

} // verus!
