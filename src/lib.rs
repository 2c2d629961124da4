//! Serving a tree of markdown articles under opaque identifiers.
//!
//! Each article is named by the hex SHA-256 digest of its location; the
//! markup of an article goes through parse, rewrite and serialize stages.
pub mod digest;
pub mod tree;
pub mod listing;
pub mod markup;
pub mod render;
pub mod page;
pub mod client;
