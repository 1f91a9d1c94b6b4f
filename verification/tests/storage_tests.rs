use vivcms::models::{Board, JoinedPost, Post, PostContent, Thread, User};
use vivcms::storage::posts::{
    get_post_info, get_posts, publish_after_insert, set_post_published_id, PublishError,
};
use vivcms::storage::records::{
    new_board_record, new_post_content_record, new_post_record, new_thread_record,
};

fn author() -> User {
    User { id: 2, username: "ann".to_string(), pass_sha: "h".to_string(), salt: "s".to_string() }
}

fn post() -> Post {
    Post { id: 10, author: 2, thread_id: 4, created: 0 }
}

fn content(id: i32, title: &str) -> PostContent {
    PostContent {
        id,
        post_id: 10,
        author_id: 2,
        title: title.to_string(),
        body: format!("body of {}", title),
        created: 0,
        is_published: 1,
    }
}

#[test]
fn published_id_maps_to_first_matching_revision() {
    let contents = vec![content(5, "a"), content(8, "b"), content(8, "c")];
    let joined = get_post_info(post(), Some(8), author(), contents.clone());
    assert_eq!(joined.published_content_index, Some(1));
    assert_eq!(joined.contents, contents);
    assert_eq!(joined.post, post());
    assert_eq!(joined.author, author());
    assert_eq!(joined.get_published_content().unwrap().title, "b");
}

#[test]
fn unknown_published_id_publishes_nothing() {
    let joined = get_post_info(post(), Some(99), author(), vec![content(5, "a")]);
    assert_eq!(joined.published_content_index, None);
    assert!(joined.get_published_content().is_none());
}

#[test]
fn no_published_id_publishes_nothing() {
    let joined = get_post_info(post(), None, author(), vec![content(5, "a")]);
    assert_eq!(joined.published_content_index, None);
    assert!(joined.get_published_content().is_none());
}

#[test]
fn published_index_past_the_end_gives_nothing() {
    let joined = JoinedPost {
        post: post(),
        contents: vec![content(5, "a")],
        author: author(),
        published_content_index: Some(3),
    };
    assert!(joined.get_published_content().is_none());
}

#[test]
fn get_posts_keeps_joined_posts_in_order() {
    let a = get_post_info(post(), None, author(), vec![]);
    let b = get_post_info(Post { id: 11, ..post() }, None, author(), vec![]);
    let loaded = vec![Ok(a.clone()), Err("gone".to_string()), Ok(b.clone())];
    assert_eq!(get_posts(loaded), vec![a, b]);
    assert!(get_posts(vec![]).is_empty());
}

#[test]
fn records_to_insert() {
    let board = Board { id: 3, title: "t".to_string(), details: "d".to_string() };
    assert_eq!(new_thread_record(&board).board_id, 3);
    let b = new_board_record("Games".to_string(), "all games".to_string());
    assert_eq!((b.title.as_str(), b.details.as_str()), ("Games", "all games"));
    let thread = Thread { id: 4, board_id: 3 };
    let p = new_post_record(&thread, 2);
    assert_eq!((p.author_id, p.thread_id, p.created), (2, 4, 0));
    let c = new_post_content_record(&post(), 2, "T".to_string(), "B".to_string());
    assert_eq!((c.post_id, c.author_id, c.created, c.is_published), (10, 2, 0, 1));
    assert_eq!((c.title.as_str(), c.body.as_str()), ("T", "B"));
}

#[test]
fn publishing_a_revision_of_the_post() {
    assert_eq!(set_post_published_id(Ok(content(5, "a")), Ok(post())), Ok((10, 5)));
    let other = PostContent { post_id: 99, ..content(5, "a") };
    assert_eq!(set_post_published_id(Ok(other), Ok(post())), Err(PublishError::RevisionOfAnotherPost));
    assert_eq!(
        set_post_published_id(Err("NotFound".to_string()), Ok(post())),
        Err(PublishError::Query("NotFound".to_string()))
    );
    assert_eq!(
        set_post_published_id(Ok(content(5, "a")), Err("no post".to_string())),
        Err(PublishError::Query("no post".to_string()))
    );
    let joined = get_post_info(post(), Some(5), author(), vec![content(4, "x"), content(5, "a")]);
    let published = joined.get_published_content().unwrap();
    assert_eq!((published.id, published.post_id), (5, 10));
}

#[test]
fn inserted_revisions_are_published() {
    assert_eq!(publish_after_insert(&post(), &content(5, "a")), Some((10, 5)));
    let draft = PostContent { is_published: 0, ..content(6, "d") };
    assert_eq!(publish_after_insert(&post(), &draft), None);
    let other = PostContent { post_id: 11, ..content(7, "o") };
    assert_eq!(publish_after_insert(&post(), &other), None);
}
