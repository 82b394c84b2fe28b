//! The commands of the index command line tool, and what each one does.

use vstd::prelude::*;
use crate::config::Repository;

verus! {

/// A command of the tool; the bench and head commands carry their own arguments.
#[derive(Debug, Clone, PartialEq, Eq)]
pub enum Commands<B, H> {
    Index,
    Search,
    Inspect,
    Bench(B),
    Head(H),
}

/// What the tool does for a command.
#[derive(Debug, Clone, PartialEq, Eq)]
pub enum CliPlan<B, H> {
    /// Index this repository with a default embedding configuration.
    Index(Repository),
    /// Search this repository with the embedding model of `embedding_config`.
    Search(Repository),
    /// Show the index.
    Inspect,
    /// Benchmark the index with these arguments.
    Bench(B),
    /// Show the first documents of the index, with these arguments.
    Head(H),
}

/// The repository that the tool indexes and searches.
pub open spec fn tool_repository_url() -> Seq<char> {
    "https://github.com/TabbyML/tabby"@
}

/// What the tool does for `command`, where `source_id` is the id of the
/// first index configuration: indexing and search work on the Tabby
/// repository under that id; the other commands pass their arguments on.
pub fn plan_command<B, H>(command: Commands<B, H>, source_id: String) -> (plan: CliPlan<B, H>)
    ensures
        match command {
            Commands::Index => plan matches CliPlan::Index(r)
                && r.git_url@ == tool_repository_url() && r.source_id@ == source_id@,
            Commands::Search => plan matches CliPlan::Search(r)
                && r.git_url@ == tool_repository_url() && r.source_id@ == source_id@,
            Commands::Inspect => plan is Inspect,
            Commands::Bench(b) => plan == CliPlan::<B, H>::Bench(b),
            Commands::Head(h) => plan == CliPlan::<B, H>::Head(h),
        },
{
    match command {
        Commands::Index => CliPlan::Index(
            Repository { git_url: String::from_str("https://github.com/TabbyML/tabby"), source_id },
        ),
        Commands::Search => CliPlan::Search(
            Repository { git_url: String::from_str("https://github.com/TabbyML/tabby"), source_id },
        ),
        Commands::Inspect => CliPlan::Inspect,
        Commands::Bench(b) => CliPlan::Bench(b),
        Commands::Head(h) => CliPlan::Head(h),
    }
}

} // verus!
