//! The embedding service the indexer and the search talk to, and the
//! repository each request is about.

use vstd::prelude::*;

verus! {

/// A repository and the id of the index configuration it is kept under.
#[derive(Debug, Clone, PartialEq, Eq)]
pub struct Repository {
    pub git_url: String,
    pub source_id: String,
}

/// The HTTP embedding model: its kind, endpoint and name, and how many
/// requests it may be sent per minute.
#[derive(Debug, Clone, PartialEq, Eq)]
pub struct EmbeddingConfig {
    pub kind: String,
    pub api_endpoint: Option<String>,
    pub model_name: Option<String>,
    pub request_per_minute: u64,
}

/// The embedding model that indexing and search use: `nomic-embed-text`
/// served by Ollama on `http://localhost:11434`, at most 6000 requests a minute.
pub fn embedding_config() -> (c: EmbeddingConfig)
    ensures
        c.kind@ == "ollama/embedding"@,
        c.api_endpoint matches Some(e) && e@ == "http://localhost:11434"@,
        c.model_name matches Some(m) && m@ == "nomic-embed-text"@,
        c.request_per_minute == 6000,
{
    EmbeddingConfig {
        kind: String::from_str("ollama/embedding"),
        api_endpoint: Some(String::from_str("http://localhost:11434")),
        model_name: Some(String::from_str("nomic-embed-text")),
        request_per_minute: 6000,
    }
}

/// The repository to index, and the embedding configuration to index it
/// with, for a request to ingest `repository` under the index configuration
/// `source_id`, once the embedding configuration has been built; where it
/// could not be built, the error that the request answers with.
pub fn code_ingest<C, E>(repository: String, config: Result<C, E>, source_id: String) -> (res: Result<
    (Repository, C),
    String,
>)
    ensures
        config matches Ok(c) ==> (res matches Ok((r, c2)) && c2 == c && r.git_url@ == repository@
            && r.source_id@ == source_id@),
        config is Err ==> (res matches Err(e) && e@ == "Failed to create http config"@),
{
    match config {
        Ok(c) => Ok((Repository { git_url: repository, source_id }, c)),
        Err(_) => Err(String::from_str("Failed to create http config")),
    }
}

/// The repository to search, and the embedding configuration to search it
/// with, for a request to search `repository` under the index configuration
/// `source_id`, once the embedding configuration has been built; where it
/// could not be built, the (empty) error that the request answers with.
pub fn code_search<C, E>(repository: String, config: Result<C, E>, source_id: String) -> (res: Result<
    (Repository, C),
    String,
>)
    ensures
        config matches Ok(c) ==> (res matches Ok((r, c2)) && c2 == c && r.git_url@ == repository@
            && r.source_id@ == source_id@),
        config is Err ==> (res matches Err(e) && e@ == Seq::<char>::empty()),
{
    match config {
        Ok(c) => Ok((Repository { git_url: repository, source_id }, c)),
        Err(_) => Err(String::new()),
    }
}

/// The answer to a request to index `repository`, from the outcome of
/// refreshing its index: `<link> indexed` where it succeeded, `Error:` and
/// the failure's message where it failed.
pub fn run_index_cli(repository: &Repository, refreshed: Result<(), String>) -> (res: Result<String, String>)
    ensures
        refreshed is Ok ==> (res matches Ok(m) && m@ == repository.git_url@ + " indexed"@),
        refreshed matches Err(e) ==> (res matches Err(m) && m@ == "Error:"@ + e@),
{
    match refreshed {
        Ok(()) => Ok(repository.git_url.clone().concat(" indexed")),
        Err(e) => Err(String::from_str("Error:").concat(e.as_str())),
    }
}

} // verus!
