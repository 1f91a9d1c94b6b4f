//! The rows of the forum's tables, the records written into them, and a
//! post joined with its author and revisions.
use vstd::prelude::*;

verus! {

#[derive(Debug, Clone, PartialEq, Eq)]
pub struct Board {
    pub id: i32,
    pub title: String,
    pub details: String,
}

#[derive(Debug, Clone, Copy, PartialEq, Eq)]
pub struct Thread {
    pub id: i32,
    pub board_id: i32,
}

#[derive(Debug, Clone, Copy, PartialEq, Eq)]
pub struct Post {
    pub id: i32,
    pub author: i32,
    pub thread_id: i32,
    pub created: i32,
}

/// One revision of a post's text.
#[derive(Debug, Clone, PartialEq, Eq)]
pub struct PostContent {
    pub id: i32,
    pub post_id: i32,
    pub author_id: i32,
    pub title: String,
    pub body: String,
    pub created: i32,
    pub is_published: i32,
}

#[derive(Debug, Clone, PartialEq, Eq)]
pub struct User {
    pub id: i32,
    pub username: String,
    pub pass_sha: String,
    pub salt: String,
}

/// A post with its revisions and its author. `published_content_index`,
/// where it is `Some(i)`, points into `contents`.
#[derive(Debug, Clone, PartialEq, Eq)]
pub struct JoinedPost {
    pub post: Post,
    pub contents: Vec<PostContent>,
    pub author: User,
    pub published_content_index: Option<usize>,
}

impl JoinedPost {
    /// The revision that `published_content_index` points at, if it points
    /// at one.
    pub open spec fn spec_published_content(&self) -> Option<PostContent> {
        match self.published_content_index {
            None => None,
            Some(i) => if i < self.contents@.len() {
                Some(self.contents@[i as int])
            } else {
                None
            },
        }
    }

    /// The published revision of the post: `None` where no index is set or
    /// the index is past the end of `contents`.
    pub fn get_published_content(&self) -> (r: Option<&PostContent>)
        ensures
            match r {
                None => self.spec_published_content() is None,
                Some(c) => self.spec_published_content() == Some(*c),
            },
    {
        match self.published_content_index {
            None => None,
            Some(i) => {
                if i < self.contents.len() {
                    Some(&self.contents[i])
                } else {
                    None
                }
            },
        }
    }
}

#[derive(Debug, Clone, PartialEq, Eq)]
pub struct NewBoard {
    pub title: String,
    pub details: String,
}

#[derive(Debug, Clone, Copy, PartialEq, Eq)]
pub struct NewThread {
    pub board_id: i32,
}

#[derive(Debug, Clone, Copy, PartialEq, Eq)]
pub struct NewPost {
    pub author_id: i32,
    pub thread_id: i32,
    pub created: i32,
}

#[derive(Debug, Clone, PartialEq, Eq)]
pub struct NewPostContents {
    pub post_id: i32,
    pub author_id: i32,
    pub title: String,
    pub body: String,
}

#[derive(Debug, Clone, PartialEq, Eq)]
pub struct NewPostContentInsertion {
    pub post_id: i32,
    pub author_id: i32,
    pub title: String,
    pub body: String,
    pub created: i32,
    pub is_published: i32,
}

/// A user row to insert. The fields are owned, so that the record can be
/// built and handed on.
#[derive(Debug, Clone, PartialEq, Eq)]
pub struct NewUser {
    pub username: String,
    pub pass_sha: String,
    pub salt: String,
}

} // verus!
