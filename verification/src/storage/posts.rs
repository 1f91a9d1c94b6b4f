//! Joining a post with its author and revisions, and keeping the posts
//! that could be joined.
use vstd::prelude::*;
use crate::models::{JoinedPost, Post, PostContent, User};

verus! {

/// The index of the first revision in `contents` whose id is `id`.
pub open spec fn first_position(contents: Seq<PostContent>, id: i32) -> Option<nat>
    decreases contents.len(),
{
    if contents.len() == 0 {
        None
    } else if contents[0].id == id {
        Some(0)
    } else {
        match first_position(contents.skip(1), id) {
            Some(i) => Some(i + 1),
            None => None,
        }
    }
}

/// `first_position` is the least index holding the id, and `None` exactly
/// where no revision has it.
pub proof fn lemma_first_position(contents: Seq<PostContent>, id: i32)
    ensures
        match first_position(contents, id) {
            Some(i) => i < contents.len() && contents[i as int].id == id && forall|j: int|
                0 <= j < i ==> #[trigger] contents[j].id != id,
            None => forall|j: int| 0 <= j < contents.len() ==> #[trigger] contents[j].id != id,
        },
    decreases contents.len(),
{
    if contents.len() > 0 && contents[0].id != id {
        let rest = contents.skip(1);
        lemma_first_position(rest, id);
        assert forall|j: int| 1 <= j < contents.len() implies contents[j] == rest[j - 1] by {}
    }
}

/// The index of the published revision: the first revision whose id is
/// the post's published revision id, if it has one.
pub open spec fn published_index(contents: Seq<PostContent>, published_content: Option<i32>) -> Option<
    usize,
> {
    match published_content {
        None => None,
        Some(id) => match first_position(contents, id) {
            Some(i) => Some(i as usize),
            None => None,
        },
    }
}

/// The index of the first revision in `contents` whose id is `id`.
fn position_of(contents: &Vec<PostContent>, id: i32) -> (r: Option<usize>)
    ensures
        match first_position(contents@, id) {
            Some(i) => r == Some(i as usize),
            None => r is None,
        },
{
    proof {
        lemma_first_position(contents@, id);
    }
    let mut i: usize = 0;
    while i < contents.len()
        invariant
            i <= contents@.len(),
            forall|j: int| 0 <= j < i ==> #[trigger] contents@[j].id != id,
            match first_position(contents@, id) {
                Some(k) => k < contents@.len() && contents@[k as int].id == id && forall|j: int|
                    0 <= j < k ==> #[trigger] contents@[j].id != id,
                None => forall|j: int| 0 <= j < contents@.len() ==> #[trigger] contents@[j].id != id,
            },
        decreases contents@.len() - i,
    {
        if contents[i].id == id {
            return Some(i);
        }
        i = i + 1;
    }
    None
}

/// Joins a post row with its author's row and its revisions. The published
/// revision id, where the post has one, is mapped to the index of the first
/// revision with that id.
pub fn get_post_info(post: Post, published_content: Option<i32>, user: User, contents: Vec<
    PostContent,
>) -> (r: JoinedPost)
    ensures
        r.post == post,
        r.author == user,
        r.contents@ == contents@,
        r.published_content_index == published_index(contents@, published_content),
{
    let index = match published_content {
        None => None,
        Some(id) => position_of(&contents, id),
    };
    JoinedPost { post, contents, author: user, published_content_index: index }
}

/// What a joined post publishes agrees with the post's published revision
/// id: for a post joined by `get_post_info`, `get_published_content` gives
/// the first revision carrying that id, and gives nothing where the post
/// has no such id or no revision carries it.
pub proof fn lemma_published_content_has_published_id(
    joined: JoinedPost,
    contents: Seq<PostContent>,
    published_content: Option<i32>,
)
    requires
        joined.contents@ == contents,
        contents.len() <= usize::MAX,
        joined.published_content_index == published_index(contents, published_content),
    ensures
        match published_content {
            None => joined.spec_published_content() is None,
            Some(id) => match joined.spec_published_content() {
                Some(c) => c.id == id && exists|i: int|
                    0 <= i < contents.len() && contents[i] == c && forall|j: int|
                        0 <= j < i ==> #[trigger] contents[j].id != id,
                None => forall|j: int| 0 <= j < contents.len() ==> #[trigger] contents[j].id != id,
            },
        },
{
    if let Some(id) = published_content {
        lemma_first_position(contents, id);
        if let Some(i) = first_position(contents, id) {
            let k = i as int;
            assert(joined.spec_published_content() == Some(contents[k]));
        }
    } else {
        assert(joined.published_content_index is None);
    }
}

/// Why a revision cannot be made the published one of a post.
#[derive(Debug, PartialEq, Eq)]
pub enum PublishError {
    /// A lookup failed; the query error's message.
    Query(String),
    /// The revision belongs to another post.
    RevisionOfAnotherPost,
}

/// Whether revision `revision` may be published for `post`, given what the
/// lookups of the revision by its id and of the post by its id gave: the
/// revision must exist, the post must exist, and the revision must belong
/// to the post. Where it may, the post id and the revision id to record.
pub fn set_post_published_id(revision: Result<PostContent, String>, post: Result<Post, String>) -> (r:
    Result<(i32, i32), PublishError>)
    ensures
        match revision {
            Err(m) => r matches Err(PublishError::Query(m2)) && m2 == m,
            Ok(c) => match post {
                Err(m) => r matches Err(PublishError::Query(m2)) && m2 == m,
                Ok(p) => if c.post_id == p.id {
                    r == Ok::<(i32, i32), PublishError>((p.id, c.id))
                } else {
                    r == Err::<(i32, i32), PublishError>(PublishError::RevisionOfAnotherPost)
                },
            },
        },
{
    let content = match revision {
        Err(m) => return Err(PublishError::Query(m)),
        Ok(c) => c,
    };
    let target = match post {
        Err(m) => return Err(PublishError::Query(m)),
        Ok(p) => p,
    };
    if content.post_id == target.id {
        Ok((target.id, content.id))
    } else {
        Err(PublishError::RevisionOfAnotherPost)
    }
}

/// What follows the insertion of revision `inserted` for `post`: a
/// revision inserted as published (there are no drafts yet) becomes the
/// post's published revision; where it does, the post id and the revision
/// id to record.
pub fn publish_after_insert(post: &Post, inserted: &PostContent) -> (r: Option<(i32, i32)>)
    ensures
        r == (if inserted.is_published == 1 && inserted.post_id == post.id {
            Some((post.id, inserted.id))
        } else {
            None::<(i32, i32)>
        }),
{
    if inserted.is_published == 1 && inserted.post_id == post.id {
        Some((post.id, inserted.id))
    } else {
        None
    }
}

/// Publishing a revision and reading the post back gives that revision:
/// where `set_post_published_id` allowed revision `c` for post `p`, and the
/// post is then read back with published revision id `c.id` and revisions
/// that belong to it, among them `c`, its joined form publishes a revision
/// with `c`'s id that belongs to `p`.
pub proof fn lemma_published_revision_reads_back(
    c: PostContent,
    p: Post,
    contents: Seq<PostContent>,
    joined: JoinedPost,
)
    requires
        c.post_id == p.id,
        contents.contains(c),
        contents.len() <= usize::MAX,
        forall|j: int| 0 <= j < contents.len() ==> #[trigger] contents[j].post_id == p.id,
        joined.post == p,
        joined.contents@ == contents,
        joined.published_content_index == published_index(contents, Some(c.id)),
    ensures
        joined.spec_published_content() matches Some(d) && d.id == c.id && d.post_id == p.id,
{
    lemma_first_position(contents, c.id);
    let w = choose|i: int| 0 <= i < contents.len() && contents[i] == c;
    assert(contents[w].id == c.id);
    lemma_published_content_has_published_id(joined, contents, Some(c.id));
    let k = first_position(contents, c.id).unwrap() as int;
    assert(contents[k].post_id == p.id);
}

/// The values of the `Ok` entries, in their order; the `Err` entries are
/// left out.
pub open spec fn loaded_only<T, E>(s: Seq<Result<T, E>>) -> Seq<T>
    decreases s.len(),
{
    if s.len() == 0 {
        Seq::empty()
    } else {
        match s.last() {
            Ok(v) => loaded_only(s.drop_last()).push(v),
            Err(_) => loaded_only(s.drop_last()),
        }
    }
}

/// Keeps the posts that could be joined, in the order they came, and drops
/// those whose joining failed.
pub fn get_posts(loaded: Vec<Result<JoinedPost, String>>) -> (posts: Vec<JoinedPost>)
    ensures
        posts@ == loaded_only(loaded@),
{
    let ghost all = loaded@;
    let mut posts: Vec<JoinedPost> = Vec::new();
    for item in it: loaded.into_iter()
        invariant
            it.seq() == all,
            posts@ == loaded_only(all.take(it.index() as int)),
    {
        let ghost i = it.index();
        assert(all.take(i + 1).drop_last() =~= all.take(i as int));
        match item {
            Ok(p) => posts.push(p),
            Err(_) => {},
        }
    }
    assert(all.take(all.len() as int) =~= all);
    posts
}

} // verus!
