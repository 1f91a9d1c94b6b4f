//! The decisions of the forum's pages: which answer a request gets, given
//! the session and the rows that were read for it.
pub mod admin;
pub mod paths;
pub mod post_editor;
pub mod posts;
pub mod view_board_threads;
pub mod view_thread;
