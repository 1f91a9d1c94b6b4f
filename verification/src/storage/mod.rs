//! What the library computes around the database: the records that are
//! inserted, and the joining of rows that were read.
pub mod posts;
pub mod records;
