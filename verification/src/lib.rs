//! Converts marked-up news documents from distinct publishers into one
//! canonical article record. A parsed document is modelled as a tree of
//! elements and text nodes; a generic selection layer finds elements by
//! declarative patterns with uniqueness checking; publisher pipelines walk the
//! tree and assemble the record under an all-or-nothing error policy.

pub mod dom;
pub mod datetime;
pub mod entities;
pub mod errors;
pub mod pattern;
pub mod parsers;
pub mod publishers;
pub mod root_structs;
pub mod select;
pub mod text;

pub use dom::{Attr, Doc, Node, NodeData};
pub use parsers::parse_article_html;
