use vivcms::auth::AuthError;
use vivcms::error::ForumError;
use vivcms::models::{Board, JoinedPost, Post, PostContent, Thread, User};
use vivcms::pages::admin::boards::{new_board_page, BoardEditorPage, SaveBoardAction, SaveBoardForm};
use vivcms::markdown::is_safe_markdown;
use vivcms::pages::paths::{path_with_id, thread_path};
use vivcms::pages::post_editor::{
    edit_post, new_thread, reply_in_thread, save_post, saved_post_location, FormMode, Mode,
    PostEditorForm, PostWrite,
};
use vivcms::pages::posts::{
    edit_post_page, hello_template, index, new_post_page, post_handle, post_handle_reply, try_index,
    view_post, EditorPage, PostForm, ViewPostPage,
};
use vivcms::pages::view_board_threads::{load_thread_row, view_board_threads};
use vivcms::pages::view_thread::{load_post_row, post_title, view_thread};

fn user() -> User {
    User { id: 2, username: "ann".to_string(), pass_sha: "h".to_string(), salt: "s".to_string() }
}

fn refused() -> Result<User, AuthError> {
    Err(AuthError { error_detail: "Missing auth cookie.".to_string() })
}

fn board() -> Board {
    Board { id: 3, title: "General".to_string(), details: "talk".to_string() }
}

fn joined(id: i32, titles: &[&str], published: Option<usize>) -> JoinedPost {
    JoinedPost {
        post: Post { id, author: 2, thread_id: 4, created: 0 },
        contents: titles
            .iter()
            .enumerate()
            .map(|(i, t)| PostContent {
                id: i as i32,
                post_id: id,
                author_id: 2,
                title: t.to_string(),
                body: format!("{} body", t),
                created: 0,
                is_published: 1,
            })
            .collect(),
        author: user(),
        published_content_index: published,
    }
}

#[test]
fn board_editor_needs_a_session() {
    match new_board_page(refused()) {
        BoardEditorPage::Refused(t) => assert_eq!(t, "Missing auth cookie."),
        _ => panic!("expected a refusal"),
    }
    match new_board_page(Ok(user())) {
        BoardEditorPage::Editor(t) => {
            assert!(t.existing_board.is_none());
            assert_eq!(t.form_action, "/admin/board/save");
        }
        _ => panic!("expected the editor"),
    }
}

#[test]
fn saving_boards() {
    let form = SaveBoardForm { title: "T".to_string(), details: "D".to_string(), id: None };
    match vivcms::pages::admin::boards::save_board_page(Ok(user()), &form) {
        SaveBoardAction::Create(b) => assert_eq!((b.title.as_str(), b.details.as_str()), ("T", "D")),
        _ => panic!("expected a new board"),
    }
    let form = SaveBoardForm { title: "T".to_string(), details: "D".to_string(), id: Some(1) };
    assert!(matches!(
        vivcms::pages::admin::boards::save_board_page(Ok(user()), &form),
        SaveBoardAction::EditingNotImplemented
    ));
    assert!(matches!(
        vivcms::pages::admin::boards::save_board_page(refused(), &form),
        SaveBoardAction::Refused(_)
    ));
}

#[test]
fn paths_with_ids() {
    assert_eq!(path_with_id("/board/", 12, "/new_thread"), "/board/12/new_thread");
    assert_eq!(thread_path(-5), "/thread/-5");
    assert_eq!(saved_post_location(&Thread { id: 44, board_id: 1 }), "/thread/44");
}

#[test]
fn new_thread_editor() {
    let t = new_thread(Ok(user()), Ok(board()), 3).unwrap();
    assert_eq!(t.form_action, "/board/3/new_thread");
    assert!(matches!(t.mode, Mode::NewThread(ref b) if b.id == 3));
    match new_thread(refused(), Ok(board()), 3) {
        Err(ForumError::Auth(e)) => assert_eq!(e.error_detail, "Missing auth cookie."),
        _ => panic!("expected a refusal"),
    }
    match new_thread(Ok(user()), Err("NotFound".to_string()), 3) {
        Err(ForumError::Database(m)) => assert_eq!(m, "NotFound"),
        _ => panic!("expected a query error"),
    }
}

#[test]
fn reply_and_edit_editors() {
    let thread = Thread { id: 4, board_id: 3 };
    let t = reply_in_thread(Ok(user()), Ok(thread), Ok(joined(9, &["first"], Some(0))), 4).unwrap();
    assert_eq!(t.form_action, "/thread/4/reply");
    assert!(matches!(t.mode, Mode::Reply(ref c) if c.thread.id == 4 && c.first_post.post.id == 9));
    assert!(matches!(
        reply_in_thread(Ok(user()), Ok(thread), Err("none".to_string()), 4),
        Err(ForumError::Database(_))
    ));
    let t = edit_post(Ok(user()), Ok(joined(9, &["x"], None)), 9).unwrap();
    assert_eq!(t.form_action, "/post/9/edit");
    assert!(matches!(t.mode, Mode::EditPost(ref p) if p.post.id == 9));
}

#[test]
fn saving_the_editor() {
    let form = PostEditorForm { title: "T".to_string(), body: "B".to_string() };
    match save_post(&form, FormMode::Reply(Thread { id: 4, board_id: 3 }), &user()) {
        PostWrite::Reply { thread, author_id, title, body } => {
            assert_eq!((thread.id, author_id, title.as_str(), body.as_str()), (4, 2, "T", "B"))
        }
        _ => panic!("expected a reply"),
    }
    match vivcms::pages::post_editor::save_board_page(Ok(user()), &form, Ok(board())) {
        Ok(PostWrite::NewThread { board, author_id, .. }) => assert_eq!((board.id, author_id), (3, 2)),
        _ => panic!("expected a new thread"),
    }
}

#[test]
fn board_page_lists_threads_with_first_posts() {
    let rows = vec![
        (Thread { id: 1, board_id: 3 }, Ok(joined(11, &["a"], Some(0)))),
        (Thread { id: 2, board_id: 3 }, Err("no posts".to_string())),
        (Thread { id: 5, board_id: 3 }, Ok(joined(15, &["c"], Some(0)))),
    ];
    let page = view_board_threads(board(), Ok(rows)).unwrap();
    assert_eq!(page.board, board());
    let ids: Vec<i32> = page.threads.iter().map(|r| r.id).collect();
    assert_eq!(ids, vec![1, 5]);
    assert_eq!(page.threads[1].first_post.post.id, 15);
    assert!(matches!(view_board_threads(board(), Err("x".to_string())), Err(ForumError::Database(_))));
    assert!(load_thread_row(Thread { id: 1, board_id: 3 }, Err("e".to_string())).is_none());
}

#[test]
fn thread_page_title_and_rows() {
    let thread = Thread { id: 4, board_id: 3 };
    let posts = vec![
        Err("broken".to_string()),
        Ok(joined(21, &["draft", "Hello"], Some(1))),
        Ok(joined(22, &["Re"], Some(0))),
    ];
    let page = view_thread(Ok(thread), Ok(board()), Ok(posts)).unwrap();
    assert_eq!(page.title, "Hello");
    let ids: Vec<i32> = page.posts.iter().map(|r| r.id).collect();
    assert_eq!(ids, vec![21, 22]);
    match view_thread(Ok(thread), Ok(board()), Ok(vec![Err("x".to_string())])) {
        Err(ForumError::Unexpected(m)) => assert_eq!(m, "No first post in thread"),
        _ => panic!("expected no first post"),
    }
    match view_thread(Ok(thread), Ok(board()), Ok(vec![Err("x".to_string())])) {
        Err(e @ ForumError::Unexpected(_)) => assert_eq!(e.message(), "No first post in thread"),
        _ => panic!("expected no first post"),
    }
    let page = view_thread(Ok(thread), Ok(board()), Ok(vec![Ok(joined(3, &["v1", "v2"], None))]))
        .unwrap();
    assert_eq!(page.title, "v2");
    let page = view_thread(Ok(thread), Ok(board()), Ok(vec![Ok(joined(3, &[], None))])).unwrap();
    assert_eq!(page.title, "");
    assert_eq!(post_title(&joined(3, &["a", "b"], Some(0))), "a");
    assert!(load_post_row(Err("x".to_string())).is_none());
    assert_eq!(load_post_row(Ok(joined(8, &[], None))).unwrap().id, 8);
}

#[test]
fn post_pages() {
    assert!(matches!(new_post_page(refused()), EditorPage::Text(ref t) if t == "Missing auth cookie."));
    assert!(matches!(new_post_page(Ok(user())), EditorPage::Editor(ref t) if t.form_action == "/admin/post/new"));
    assert!(matches!(edit_post_page(Ok(user()), Err("NotFound".to_string())), EditorPage::Text(ref t) if t == "NotFound"));
    match edit_post_page(Ok(user()), Ok(joined(1, &["a"], Some(0)))) {
        EditorPage::Editor(t) => {
            assert_eq!(t.form_action, "/admin/post/edit");
            assert_eq!(t.existing_post.unwrap().post.id, 1);
        }
        _ => panic!("expected the editor"),
    }
}

#[test]
fn posting_from_the_editor() {
    let form = PostForm { title: "T".to_string(), body: "B".to_string() };
    let draft = post_handle(Ok(user()), &form).unwrap();
    assert_eq!((draft.author_id, draft.title.as_str(), draft.body.as_str()), (2, "T", "B"));
    assert_eq!(post_handle(refused(), &form).unwrap_err(), "Missing auth cookie.");
    assert_eq!(post_handle_reply(Ok(())), "okay you made a post, cool");
    assert_eq!(post_handle_reply(Err("db locked".to_string())), "db locked");
}

#[test]
fn viewing_a_post() {
    let lookup = Err("NotFound".to_string());
    assert!(matches!(view_post(&lookup), ViewPostPage::Text(ref t) if t == "this page doesn't exist? NotFound"));
    let lookup = Ok(joined(1, &["a"], None));
    assert!(matches!(view_post(&lookup), ViewPostPage::Text(ref t) if t == "This post has no contents"));
    let lookup = Ok(joined(1, &["old", "new"], Some(1)));
    match view_post(&lookup) {
        ViewPostPage::Post(v) => {
            assert_eq!(v.title, "new");
            assert_eq!(v.body, "new body");
            assert_eq!(v.author, "ann");
        }
        _ => panic!("expected the post"),
    }
}

#[test]
fn greeting_page_renders_markdown() {
    assert_eq!(hello_template().name, "world");
    let html = try_index("Hello, **world**!").unwrap();
    assert!(html.contains("<strong>world</strong>"), "{}", html);
    assert_ne!(html, "Hello, **world**!");
    assert_eq!(index("<p>Hello, world!</p>"), try_index("<p>Hello, world!</p>").unwrap());
}

#[test]
fn greeting_text_that_is_not_rendered() {
    assert!(try_index("```bob\n-->\n```").is_none());
    assert!(try_index("~~~\ncode\n~~~").is_none());
    assert!(try_index("caf\u{e9}").is_none());
    assert!(try_index(&">".repeat(1025)).is_none());
    assert!(is_safe_markdown(&">".repeat(1024)));
    assert!(is_safe_markdown("``not a fence`` ~~ ~"));
    assert!(!is_safe_markdown("a``````b"));
    assert!(is_safe_markdown(""));
}
