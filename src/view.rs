//! The read side used by a render loop: copies of the shared feed, and a way
//! to skip work when nothing changed since the last look.
use vstd::prelude::*;
use crate::post::Post;
use crate::feed::{keys_unique, views};
use crate::store::FeedStore;

verus! {

/// A read-only view of a [`FeedStore`] that remembers the last revision it
/// handed out.
pub struct FeedView<'a> {
    store: &'a FeedStore,
    last_seen: Option<u64>,
}

impl<'a> FeedView<'a> {
    pub closed spec fn store(&self) -> FeedStore {
        *self.store
    }

    pub closed spec fn last_seen(&self) -> Option<u64> {
        self.last_seen
    }

    pub fn new(store: &'a FeedStore) -> (r: FeedView<'a>)
        ensures
            r.store() == *store,
            r.last_seen() is None,
    {
        FeedView { store, last_seen: None }
    }

    /// The posts of the feed now, oldest first.
    pub fn current(&self) -> (r: Vec<Post>)
        ensures
            keys_unique(views(r@)),
            r@.len() <= self.store().spec_capacity(),
    {
        self.store.snapshot().0
    }

    /// The posts of the feed now, or `None` when the feed is at the revision
    /// that this view handed out last.
    pub fn changed(&mut self) -> (r: Option<Vec<Post>>)
        ensures
            final(self).store() == old(self).store(),
            final(self).last_seen() is Some,
            r is None <==> final(self).last_seen() == old(self).last_seen(),
            r matches Some(v) ==> keys_unique(views(v@)) && v@.len()
                <= old(self).store().spec_capacity(),
    {
        let (posts, revision) = self.store.snapshot();
        match self.last_seen {
            Some(seen) if seen == revision => None,
            _ => {
                self.last_seen = Some(revision);
                Some(posts)
            },
        }
    }
}

} // verus!
