//! A small forum: accounts with salted password hashes, session cookies,
//! boards, threads and posts with revisions.
pub mod auth;
pub mod decimal;
pub mod digest;
pub mod error;
pub mod markdown;
pub mod models;
pub mod storage;
pub mod pages;
