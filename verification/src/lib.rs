//! Bounded concurrent ingestion of documents into a Solr collection: the
//! configuration and the addresses it yields, the content filter, the
//! deduplicated work set, the upload tasks and their outcomes, and the
//! scheduling rules of the upload pipeline. Reading files and sending
//! requests is left to the caller.

pub mod config;
pub mod filter;
pub mod outcome;
pub mod pipeline;
pub mod plan;
pub mod task;
pub mod text;
pub mod workset;
