//! The page of a thread.
use vstd::prelude::*;
use crate::error::{query, ForumError};
use crate::models::{Board, JoinedPost, Thread};
use crate::storage;

verus! {

/// A post as the thread's page lists it.
#[derive(Debug)]
pub struct PostRow {
    pub id: i32,
    pub post: JoinedPost,
}

/// The page of a thread, titled after its first post.
#[derive(Debug)]
pub struct ViewThreadTemplate {
    pub thread: Thread,
    pub title: String,
    pub board: Board,
    pub posts: Vec<PostRow>,
}

pub open spec fn post_row_spec(post: JoinedPost) -> PostRow {
    PostRow { id: post.post.id, post }
}

/// The row of a post that was loaded and joined; none where that failed.
pub fn load_post_row(post: Result<JoinedPost, String>) -> (row: Option<PostRow>)
    ensures
        match post {
            Ok(p) => row == Some(post_row_spec(p)),
            Err(_) => row is None,
        },
{
    match post {
        Ok(post) => Some(PostRow { id: post.post.id, post }),
        Err(_) => None,
    }
}

/// The title of a post: that of its published revision; where none is
/// published, that of its latest revision; empty where it has none.
pub open spec fn post_title_spec(post: JoinedPost) -> Seq<char> {
    match post.spec_published_content() {
        Some(c) => c.title@,
        None => if post.contents@.len() > 0 {
            post.contents@.last().title@
        } else {
            Seq::empty()
        },
    }
}

/// The title of `post`.
pub fn post_title(post: &JoinedPost) -> (title: String)
    ensures
        title@ == post_title_spec(*post),
{
    match post.get_published_content() {
        Some(content) => content.title.clone(),
        None => {
            let n = post.contents.len();
            if n > 0 {
                post.contents[n - 1].title.clone()
            } else {
                String::new()
            }
        },
    }
}

/// The title of a thread: the title of its first listed post; or why there
/// is none.
pub open spec fn thread_title_spec(posts: Seq<JoinedPost>) -> Result<Seq<char>, Seq<char>> {
    if posts.len() == 0 {
        Err("No first post in thread"@)
    } else {
        Ok(post_title_spec(posts[0]))
    }
}

/// A thread is titled after its first listed post, as the post's own page
/// shows it: the title of that post's published revision where it has one;
/// otherwise the title of its latest revision; otherwise empty. Only a
/// thread with no listed post has no title.
pub proof fn lemma_thread_title(posts: Seq<JoinedPost>)
    ensures
        posts.len() == 0 ==> thread_title_spec(posts) == Err::<Seq<char>, Seq<char>>(
            "No first post in thread"@,
        ),
        posts.len() > 0 ==> thread_title_spec(posts) is Ok,
        posts.len() > 0 ==> match posts[0].spec_published_content() {
            Some(c) => thread_title_spec(posts) == Ok::<Seq<char>, Seq<char>>(c.title@),
            None => posts[0].contents@.len() > 0 ==> thread_title_spec(posts) == Ok::<
                Seq<char>,
                Seq<char>,
            >(posts[0].contents@.last().title@),
        },
{
}

/// The page of a thread, given the thread that the lookup by its id gave,
/// its board, and its posts, each loaded and joined or not. Posts that could
/// not be joined are left out; the page is titled after the first post
/// that is listed.
pub fn view_thread(
    thread: Result<Thread, String>,
    board: Result<Board, String>,
    posts: Result<Vec<Result<JoinedPost, String>>, String>,
) -> (r: Result<ViewThreadTemplate, ForumError>)
    ensures
        match thread {
            Err(m) => r matches Err(ForumError::Database(m2)) && m2 == m,
            Ok(th) => match board {
                Err(m) => r matches Err(ForumError::Database(m2)) && m2 == m,
                Ok(b) => match posts {
                    Err(m) => r matches Err(ForumError::Database(m2)) && m2 == m,
                    Ok(list) => match thread_title_spec(storage::posts::loaded_only(list@)) {
                        Err(why) => r matches Err(ForumError::Unexpected(u)) && u@ == why,
                        Ok(title) => r matches Ok(page) && page.thread == th && page.board == b
                            && page.title@ == title && page.posts@ == storage::posts::loaded_only(list@).map_values(
                            |p: JoinedPost| post_row_spec(p),
                        ),
                    },
                },
            },
        },
{
    let thread = query(thread)?;
    let board = query(board)?;
    let posts = query(posts)?;
    let ghost all = posts@;
    let mut rows: Vec<PostRow> = Vec::new();
    for entry in it: posts.into_iter()
        invariant
            it.seq() == all,
            rows@ == storage::posts::loaded_only(all.take(it.index() as int)).map_values(
                |p: JoinedPost| post_row_spec(p),
            ),
    {
        let ghost i = it.index();
        assert(all.take(i + 1).drop_last() =~= all.take(i as int));
        match load_post_row(entry) {
            Some(row) => rows.push(row),
            None => {},
        }
        assert(rows@ =~= storage::posts::loaded_only(all.take(i + 1)).map_values(|p: JoinedPost| post_row_spec(p)));
    }
    assert(all.take(all.len() as int) =~= all);
    let ghost loaded = storage::posts::loaded_only(all);
    if rows.len() == 0 {
        return Err(ForumError::Unexpected(String::from_str("No first post in thread")));
    }
    assert(rows@[0].post == loaded[0]);
    let title = post_title(&rows[0].post);
    Ok(ViewThreadTemplate { thread, title, board, posts: rows })
}

} // verus!
