//! Metadata resolution and relevance pipeline for bibliographic search hits.
//!
//! The library turns raw web-search hits about a research subject into
//! validated, deduplicated bibliographic records: it extracts a canonical
//! identifier (a DOI or an arXiv id) from each hit, enriches the record
//! through a fallback chain of metadata sources, scores topical relevance by
//! parsing a generative model's loosely structured reply, and persists each
//! accepted record exactly once per identifier.
//!
//! Relevance scores are handled in hundredths, so that a score of `0.92` is
//! the integer `92`; the disabled-validation sentinel `1.1` is `110`.

pub mod clock;
pub mod dedup;
pub mod ident;
pub mod json_ext;
pub mod logbuf;
pub mod numtext;
pub mod page_meta;
pub mod pipeline;
pub mod results;
pub mod strutil;
pub mod verdict;
pub mod webpage;
