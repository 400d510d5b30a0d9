//! Relevance filtering of news items pulled from feeds and sitemaps.
use vstd::prelude::*;

pub mod text;
pub mod clean;
pub mod oracle;
pub mod expiry;
pub mod config;
pub mod flow;
pub mod item;
pub mod sitemap;
pub mod feed;

verus! {

/// The error of `regex::Regex::new`, carried through unread.
#[verifier::external_type_specification]
#[verifier::external_body]
pub struct ExRegexError(regex::Error);

} // verus!
