//! Repository list bookkeeping, index and search outcomes, the replies of the
//! code search tool service and the commands of the index tool, with their
//! contracts.

pub mod cli;
pub mod config;
pub mod query;
pub mod repo_list;
pub mod service;
