//! The records that creating a board, a thread, a post or a post revision
//! inserts.
use vstd::prelude::*;
use crate::models::{Board, NewBoard, NewPost, NewPostContentInsertion, NewThread, Post, Thread};

verus! {

/// The board row to insert for `create_board`.
pub fn new_board_record(title: String, details: String) -> (r: NewBoard)
    ensures
        r.title == title,
        r.details == details,
{
    NewBoard { title, details }
}

/// The thread row to insert for `create_thread` in `board`.
pub fn new_thread_record(board: &Board) -> (r: NewThread)
    ensures
        r.board_id == board.id,
{
    NewThread { board_id: board.id }
}

/// The post row to insert for `create_post` by the user `author_id` in
/// `thread`; the creation time is not recorded yet and is 0.
pub fn new_post_record(thread: &Thread, author_id: i32) -> (r: NewPost)
    ensures
        r.author_id == author_id,
        r.thread_id == thread.id,
        r.created == 0,
{
    NewPost { author_id, thread_id: thread.id, created: 0 }
}

/// The revision row to insert for `create_post_contents` by the user
/// `author_id`: a published revision (there are no drafts), with creation
/// time 0.
pub fn new_post_content_record(post: &Post, author_id: i32, title: String, body: String) -> (r:
    NewPostContentInsertion)
    ensures
        r.post_id == post.id,
        r.author_id == author_id,
        r.title == title,
        r.body == body,
        r.created == 0,
        r.is_published == 1,
{
    NewPostContentInsertion {
        post_id: post.id,
        author_id,
        title,
        body,
        created: 0,
        is_published: 1,
    }
}

} // verus!
