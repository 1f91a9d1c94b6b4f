//! The site's first pages: the greeting, the post editor under `/admin`,
//! and a post's page.
use vstd::prelude::*;
use crate::auth::AuthError;
use crate::markdown;
use crate::markdown::{is_safe_markdown, render_markdown};
use crate::models::{JoinedPost, User};

verus! {

/// The greeting template; `name` is who is greeted.
#[derive(Debug)]
pub struct HelloTemplate<'a> {
    pub name: &'a str,
}

/// The post editor; `existing_post` is the post being edited, if any.
#[derive(Debug)]
pub struct PostTemplate {
    pub existing_post: Option<JoinedPost>,
    pub form_action: &'static str,
}

/// The page of a post: its published title and body and its author's name.
#[derive(Debug)]
pub struct ViewPostTemplate<'a> {
    pub title: &'a String,
    pub author: &'a String,
    pub body: &'a String,
}

/// What the post editor posts.
#[derive(Debug)]
pub struct PostForm {
    pub title: String,
    pub body: String,
}

/// A page that is either a plain text or the post editor.
#[derive(Debug)]
pub enum EditorPage {
    Text(String),
    Editor(PostTemplate),
}

/// A post to create: its author and its first revision's text.
#[derive(Debug)]
pub struct PostDraft {
    pub author_id: i32,
    pub title: String,
    pub body: String,
}

/// A post's page: a plain text, or the post.
#[derive(Debug)]
pub enum ViewPostPage<'a> {
    Text(String),
    Post(ViewPostTemplate<'a>),
}

/// Who the greeting greets.
pub fn hello_template() -> (t: HelloTemplate<'static>)
    ensures
        t.name@ == "world"@,
{
    HelloTemplate { name: "world" }
}

/// The greeting page: the markdown rendering of the greeting template's
/// text, which must be text that renders safely.
pub fn index(hello_html: &str) -> (page: String)
    requires
        markdown::renders_safely(hello_html@),
    ensures
        markdown::markdown_html(hello_html@) == Some(page@),
{
    render_markdown(hello_html)
}

/// The greeting page where the greeting's text renders safely; `None`
/// where it does not.
pub fn try_index(hello_html: &str) -> (page: Option<String>)
    ensures
        match page {
            Some(p) => markdown::renders_safely(hello_html@) && markdown::markdown_html(
                hello_html@,
            ) == Some(p@),
            None => !markdown::renders_safely(hello_html@),
        },
{
    if is_safe_markdown(hello_html) {
        Some(index(hello_html))
    } else {
        None
    }
}

/// The editor for a new post, for a signed-in user.
pub fn new_post_page(session: Result<User, AuthError>) -> (page: EditorPage)
    ensures
        match session {
            Err(e) => page matches EditorPage::Text(t) && t@ == e.error_detail@,
            Ok(_) => page matches EditorPage::Editor(t) && t.existing_post is None
                && t.form_action@ == "/admin/post/new"@,
        },
{
    match session {
        Err(e) => EditorPage::Text(e.error_detail),
        Ok(_user) => EditorPage::Editor(
            PostTemplate { existing_post: None, form_action: "/admin/post/new" },
        ),
    }
}

/// The editor for an existing post, for a signed-in user; `post` is what
/// the lookup by the post's id gave.
pub fn edit_post_page(session: Result<User, AuthError>, post: Result<JoinedPost, String>) -> (page:
    EditorPage)
    ensures
        match session {
            Err(e) => page matches EditorPage::Text(t) && t@ == e.error_detail@,
            Ok(_) => match post {
                Err(m) => page matches EditorPage::Text(t) && t@ == m@,
                Ok(p) => page matches EditorPage::Editor(t) && t.existing_post == Some(p)
                    && t.form_action@ == "/admin/post/edit"@,
            },
        },
{
    match session {
        Err(e) => EditorPage::Text(e.error_detail),
        Ok(_user) => match post {
            Err(m) => EditorPage::Text(m),
            Ok(post) => EditorPage::Editor(
                PostTemplate { existing_post: Some(post), form_action: "/admin/post/edit" },
            ),
        },
    }
}

/// The post that the editor's form asks for, by the signed-in user; or
/// the text that refuses it.
pub fn post_handle(session: Result<User, AuthError>, input: &PostForm) -> (r: Result<
    PostDraft,
    String,
>)
    ensures
        match session {
            Err(e) => r matches Err(t) && t@ == e.error_detail@,
            Ok(user) => r matches Ok(d) && d.author_id == user.id && d.title@ == input.title@
                && d.body@ == input.body@,
        },
{
    match session {
        Err(e) => Err(e.error_detail),
        Ok(user) => Ok(
            PostDraft { author_id: user.id, title: input.title.clone(), body: input.body.clone() },
        ),
    }
}

/// The text that answers the editor's form once the post was, or was not,
/// created.
pub fn post_handle_reply(created: Result<(), String>) -> (text: String)
    ensures
        match created {
            Err(m) => text@ == m@,
            Ok(_) => text@ == "okay you made a post, cool"@,
        },
{
    match created {
        Err(m) => m,
        Ok(_) => String::from_str("okay you made a post, cool"),
    }
}

/// The page of a post, given what the lookup by its id gave: the post's
/// published revision and author, or a text where there is none.
pub fn view_post<'a>(lookup: &'a Result<JoinedPost, String>) -> (page: ViewPostPage<'a>)
    ensures
        match lookup {
            Err(m) => page matches ViewPostPage::Text(t) && t@ == "this page doesn't exist? "@
                + m@,
            Ok(post) => match post.spec_published_content() {
                None => page matches ViewPostPage::Text(t) && t@ == "This post has no contents"@,
                Some(c) => page matches ViewPostPage::Post(v) && *v.author == post.author.username
                    && *v.title == c.title && *v.body == c.body,
            },
        },
{
    match lookup {
        Err(m) => {
            let mut t = String::from_str("this page doesn't exist? ");
            t.append(m.as_str());
            ViewPostPage::Text(t)
        },
        Ok(post) => match post.get_published_content() {
            None => ViewPostPage::Text(String::from_str("This post has no contents")),
            Some(latest_content) => ViewPostPage::Post(
                ViewPostTemplate {
                    author: &post.author.username,
                    title: &latest_content.title,
                    body: &latest_content.body,
                },
            ),
        },
    }
}

} // verus!
