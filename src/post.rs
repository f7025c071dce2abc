//! One message of the feed.
use vstd::prelude::*;

verus! {

/// A message as the origin service delivers it. Immutable once built.
#[derive(Debug, PartialEq, Eq)]
pub struct Post {
    pub author_id: String,
    pub author_handle: String,
    pub author_nickname: Option<String>,
    pub body: String,
    pub record_key: String,
    pub indexed_at: u64,
}

/// The mathematical value of a [`Post`]: its text fields as character sequences.
pub struct PostView {
    pub author_id: Seq<char>,
    pub author_handle: Seq<char>,
    pub author_nickname: Option<Seq<char>>,
    pub body: Seq<char>,
    pub record_key: Seq<char>,
    pub indexed_at: u64,
}

pub open spec fn opt_text_view(s: Option<String>) -> Option<Seq<char>> {
    match s {
        Some(t) => Some(t@),
        None => None,
    }
}

impl View for Post {
    type V = PostView;

    open spec fn view(&self) -> PostView {
        PostView {
            author_id: self.author_id@,
            author_handle: self.author_handle@,
            author_nickname: opt_text_view(self.author_nickname),
            body: self.body@,
            record_key: self.record_key@,
            indexed_at: self.indexed_at,
        }
    }
}

/// The line shown for a post: nickname (or nothing), a space, the handle,
/// a colon and a space, the body, and a line break.
pub open spec fn display_line_of(p: PostView) -> Seq<char> {
    let nick = match p.author_nickname {
        Some(n) => n,
        None => Seq::<char>::empty(),
    };
    nick + " "@ + p.author_handle + ": "@ + p.body + "\n"@
}

fn copy_opt_text(s: &Option<String>) -> (r: Option<String>)
    ensures
        opt_text_view(r) == opt_text_view(*s),
{
    match s {
        Some(t) => Some(t.clone()),
        None => None,
    }
}

impl Clone for Post {
    fn clone(&self) -> (r: Post)
        ensures
            r@ == self@,
    {
        Post {
            author_id: self.author_id.clone(),
            author_handle: self.author_handle.clone(),
            author_nickname: copy_opt_text(&self.author_nickname),
            body: self.body.clone(),
            record_key: self.record_key.clone(),
            indexed_at: self.indexed_at,
        }
    }
}

impl Post {
    pub fn new(
        author_id: String,
        author_handle: String,
        author_nickname: Option<String>,
        body: String,
        record_key: String,
        indexed_at: u64,
    ) -> (r: Post)
        ensures
            r@.author_id == author_id@,
            r@.author_handle == author_handle@,
            r@.author_nickname == opt_text_view(author_nickname),
            r@.body == body@,
            r@.record_key == record_key@,
            r@.indexed_at == indexed_at,
    {
        Post { author_id, author_handle, author_nickname, body, record_key, indexed_at }
    }

    /// The text line a render loop shows for this post.
    pub fn display_line(&self) -> (r: String)
        ensures
            r@ == display_line_of(self@),
    {
        let mut line = match &self.author_nickname {
            Some(n) => n.clone(),
            None => String::new(),
        };
        line.append(" ");
        line.append(self.author_handle.as_str());
        line.append(": ");
        line.append(self.body.as_str());
        line.append("\n");
        line
    }
}

} // verus!
