//! Pages for administrators.
pub mod boards;
