//! Verified core of a social-feed archive exporter. Topic records read from
//! a document database are rendered, one by one and in cursor order, into
//! Markdown blocks: a heading, the body text with proprietary inline tags
//! rewritten, an article link where one is embedded, and one line per
//! attachment that resolved against its side collection.

pub mod config;
pub mod decode;
pub mod laws;
pub mod numfmt;
pub mod rewrite;
pub mod tags;
pub mod text;
pub mod topic;
