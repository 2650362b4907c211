//! What is done to articles.

pub mod formatter;
