//! The list of a board's threads.
use vstd::prelude::*;
use crate::error::{query, ForumError};
use crate::models::{Board, JoinedPost, Thread};
use crate::storage;

verus! {

/// A thread with its first post, as the board's page lists it.
#[derive(Debug)]
pub struct ThreadRow {
    pub id: i32,
    pub thread: Thread,
    pub first_post: JoinedPost,
}

/// The page of a board.
#[derive(Debug)]
pub struct ViewBoardThreadsTemplate {
    pub board: Board,
    pub threads: Vec<ThreadRow>,
}

/// The row of a thread whose first post was loaded and joined; none where
/// loading it failed.
pub open spec fn thread_row_spec(thread: Thread, first_post: Result<JoinedPost, String>) -> Option<
    ThreadRow,
> {
    match first_post {
        Ok(p) => Some(ThreadRow { id: thread.id, thread, first_post: p }),
        Err(_) => None,
    }
}

/// The rows of the threads whose first post could be loaded, in the order
/// of the threads.
pub open spec fn thread_rows_spec(threads: Seq<(Thread, Result<JoinedPost, String>)>) -> Seq<
    ThreadRow,
>
    decreases threads.len(),
{
    if threads.len() == 0 {
        Seq::empty()
    } else {
        let rest = thread_rows_spec(threads.drop_last());
        match thread_row_spec(threads.last().0, threads.last().1) {
            Some(row) => rest.push(row),
            None => rest,
        }
    }
}

/// Every thread whose first post loaded is listed, whatever that post is
/// (published or not), and with that post: a thread gives a row exactly
/// where its first post is `Ok`, and the row carries the thread, its id
/// and the post.
pub proof fn lemma_thread_row_for_loaded_post(thread: Thread, first_post: Result<JoinedPost, String>)
    ensures
        match first_post {
            Ok(p) => thread_row_spec(thread, first_post) == Some(
                ThreadRow { id: thread.id, thread, first_post: p },
            ),
            Err(_) => thread_row_spec(thread, first_post) is None,
        },
{
}

/// The first posts that loaded, in the order of their threads.
pub open spec fn loaded_first_posts(threads: Seq<(Thread, Result<JoinedPost, String>)>) -> Seq<
    JoinedPost,
> {
    storage::posts::loaded_only(
        threads.map_values(|e: (Thread, Result<JoinedPost, String>)| e.1),
    )
}

/// The board lists one row per thread whose first post loaded, in order:
/// there are as many rows as loaded first posts, the `i`-th row carries the
/// `i`-th loaded first post, and each row's id is its thread's id.
pub proof fn lemma_thread_rows_are_loaded_posts(threads: Seq<(Thread, Result<JoinedPost, String>)>)
    ensures
        thread_rows_spec(threads).len() == loaded_first_posts(threads).len(),
        forall|i: int|
            0 <= i < thread_rows_spec(threads).len() ==> (#[trigger] thread_rows_spec(threads)[i]).first_post
                == loaded_first_posts(threads)[i] && thread_rows_spec(threads)[i].id
                == thread_rows_spec(threads)[i].thread.id,
    decreases threads.len(),
{
    if threads.len() > 0 {
        let rest = threads.drop_last();
        lemma_thread_rows_are_loaded_posts(rest);
        let firsts = threads.map_values(|e: (Thread, Result<JoinedPost, String>)| e.1);
        assert(firsts.drop_last() =~= rest.map_values(
            |e: (Thread, Result<JoinedPost, String>)| e.1,
        ));
        assert(firsts.last() == threads.last().1);
    }
}

/// The row of `thread`, given the result of loading its first post.
pub fn load_thread_row(thread: Thread, first_post: Result<JoinedPost, String>) -> (row: Option<
    ThreadRow,
>)
    ensures
        row == thread_row_spec(thread, first_post),
{
    match first_post {
        Ok(first_post) => Some(ThreadRow { id: thread.id, thread, first_post }),
        Err(_) => None,
    }
}

/// The page of `board`, given its threads, each with the result of loading
/// its first post. Threads whose first post could not be loaded are left
/// out; the others keep their order.
pub fn view_board_threads(
    board: Board,
    threads: Result<Vec<(Thread, Result<JoinedPost, String>)>, String>,
) -> (r: Result<ViewBoardThreadsTemplate, ForumError>)
    ensures
        match threads {
            Err(m) => r matches Err(ForumError::Database(m2)) && m2 == m,
            Ok(list) => r matches Ok(page) && page.board == board && page.threads@
                == thread_rows_spec(list@),
        },
{
    let threads = query(threads)?;
    let ghost all = threads@;
    let mut rows: Vec<ThreadRow> = Vec::new();
    for entry in it: threads.into_iter()
        invariant
            it.seq() == all,
            rows@ == thread_rows_spec(all.take(it.index() as int)),
    {
        let ghost i = it.index();
        assert(all.take(i + 1).drop_last() =~= all.take(i as int));
        let (thread, first_post) = entry;
        match load_thread_row(thread, first_post) {
            Some(row) => rows.push(row),
            None => {},
        }
    }
    assert(all.take(all.len() as int) =~= all);
    Ok(ViewBoardThreadsTemplate { board, threads: rows })
}

} // verus!
