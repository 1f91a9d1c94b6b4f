//! The post editor: starting a thread, replying in one, editing a post,
//! and saving what the editor posts.
use vstd::prelude::*;
use crate::auth::AuthError;
use crate::decimal;
use crate::error::{query, session, ForumError};
use crate::models::{Board, JoinedPost, Post, Thread, User};
use crate::pages::paths::{path_with_id, thread_path};

verus! {

/// The post editor page.
#[derive(Debug)]
pub struct PostEditorTemplate {
    pub mode: Mode,
    pub form_action: String,
}

/// What the editor is opened for.
#[derive(Debug)]
pub enum Mode {
    NewThread(Board),
    Reply(ReplyContext),
    EditPost(JoinedPost),
}

/// The thread being replied in, with its first post.
#[derive(Debug)]
pub struct ReplyContext {
    pub thread: Thread,
    pub first_post: JoinedPost,
}

/// What the editor posts.
#[derive(Debug)]
pub struct PostEditorForm {
    pub title: String,
    pub body: String,
}

/// Where a saved post goes.
#[derive(Debug)]
pub enum FormMode {
    NewThread(Board),
    Reply(Thread),
    EditPost(Post),
}

/// The write that saving the editor asks for.
#[derive(Debug)]
pub enum PostWrite {
    /// A new thread in `board`, whose first post is by `author_id`.
    NewThread { board: Board, author_id: i32, title: String, body: String },
    /// A new post by `author_id` in `thread`.
    Reply { thread: Thread, author_id: i32, title: String, body: String },
}

/// The editor for a new thread in board `board_id`, for a signed-in user;
/// `board` is the board that the lookup by that id gave.
pub fn new_thread(session_user: Result<User, AuthError>, board: Result<Board, String>, board_id: i32) -> (r:
    Result<PostEditorTemplate, ForumError>)
    ensures
        match session_user {
            Err(e) => r matches Err(ForumError::Auth(e2)) && e2 == e,
            Ok(_) => match board {
                Err(m) => r matches Err(ForumError::Database(m2)) && m2 == m,
                Ok(b) => r matches Ok(t) && t.mode == Mode::NewThread(b) && t.form_action@
                    == "/board/"@ + decimal::int_to_decimal(board_id as int) + "/new_thread"@,
            },
        },
{
    let _user = session(session_user)?;
    let board = query(board)?;
    let form_action = path_with_id("/board/", board_id, "/new_thread");
    Ok(PostEditorTemplate { mode: Mode::NewThread(board), form_action })
}

/// The editor for a reply in thread `thread_id`, for a signed-in user;
/// `thread` is the thread that the lookup by that id gave, and
/// `first_post` its first post, joined.
pub fn reply_in_thread(
    session_user: Result<User, AuthError>,
    thread: Result<Thread, String>,
    first_post: Result<JoinedPost, String>,
    thread_id: i32,
) -> (r: Result<PostEditorTemplate, ForumError>)
    ensures
        match session_user {
            Err(e) => r matches Err(ForumError::Auth(e2)) && e2 == e,
            Ok(_) => match thread {
                Err(m) => r matches Err(ForumError::Database(m2)) && m2 == m,
                Ok(th) => match first_post {
                    Err(m) => r matches Err(ForumError::Database(m2)) && m2 == m,
                    Ok(p) => r matches Ok(t) && t.mode == Mode::Reply(
                        ReplyContext { thread: th, first_post: p },
                    ) && t.form_action@ == "/thread/"@ + decimal::int_to_decimal(thread_id as int)
                        + "/reply"@,
                },
            },
        },
{
    let _user = session(session_user)?;
    let thread = query(thread)?;
    let first_post = query(first_post)?;
    let form_action = path_with_id("/thread/", thread_id, "/reply");
    Ok(PostEditorTemplate { mode: Mode::Reply(ReplyContext { thread, first_post }), form_action })
}

/// The editor for post `post_id`, for a signed-in user; `post` is the post
/// that the lookup by that id gave, joined.
pub fn edit_post(session_user: Result<User, AuthError>, post: Result<JoinedPost, String>, post_id: i32) -> (r:
    Result<PostEditorTemplate, ForumError>)
    ensures
        match session_user {
            Err(e) => r matches Err(ForumError::Auth(e2)) && e2 == e,
            Ok(_) => match post {
                Err(m) => r matches Err(ForumError::Database(m2)) && m2 == m,
                Ok(p) => r matches Ok(t) && t.mode == Mode::EditPost(p) && t.form_action@
                    == "/post/"@ + decimal::int_to_decimal(post_id as int) + "/edit"@,
            },
        },
{
    let _user = session(session_user)?;
    let post = query(post)?;
    let form_action = path_with_id("/post/", post_id, "/edit");
    Ok(PostEditorTemplate { mode: Mode::EditPost(post), form_action })
}

/// The write that saving the editor asks for, by `author`. Editing a post
/// is not supported, so `mode` is not `EditPost`.
pub fn save_post(form: &PostEditorForm, mode: FormMode, author: &User) -> (w: PostWrite)
    requires
        !(mode is EditPost),
    ensures
        match mode {
            FormMode::NewThread(b) => w == PostWrite::NewThread {
                board: b,
                author_id: author.id,
                title: form.title,
                body: form.body,
            },
            FormMode::Reply(th) => w == PostWrite::Reply {
                thread: th,
                author_id: author.id,
                title: form.title,
                body: form.body,
            },
            FormMode::EditPost(_) => false,
        },
{
    match mode {
        FormMode::NewThread(board) => PostWrite::NewThread {
            board,
            author_id: author.id,
            title: form.title.clone(),
            body: form.body.clone(),
        },
        FormMode::Reply(thread) => PostWrite::Reply {
            thread,
            author_id: author.id,
            title: form.title.clone(),
            body: form.body.clone(),
        },
        FormMode::EditPost(_) => vstd::pervasive::unreached(),
    }
}

/// What saving the editor of a new thread in a board asks for, for a
/// signed-in user; `board` is the board that the lookup by the route's id
/// gave.
pub fn save_board_page(
    session_user: Result<User, AuthError>,
    input: &PostEditorForm,
    board: Result<Board, String>,
) -> (r: Result<PostWrite, ForumError>)
    ensures
        match session_user {
            Err(e) => r matches Err(ForumError::Auth(e2)) && e2 == e,
            Ok(user) => match board {
                Err(m) => r matches Err(ForumError::Database(m2)) && m2 == m,
                Ok(b) => r == Ok::<PostWrite, ForumError>(
                    PostWrite::NewThread {
                        board: b,
                        author_id: user.id,
                        title: input.title,
                        body: input.body,
                    },
                ),
            },
        },
{
    let user = session(session_user)?;
    let board = query(board)?;
    Ok(save_post(input, FormMode::NewThread(board), &user))
}

/// Where the browser is sent once a post is saved in `thread`.
pub fn saved_post_location(thread: &Thread) -> (location: String)
    ensures
        location@ == "/thread/"@ + decimal::int_to_decimal(thread.id as int),
{
    thread_path(thread.id)
}

} // verus!
