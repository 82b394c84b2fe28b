use tabby_index_cli::config::{code_ingest, code_search, embedding_config, run_index_cli, Repository};

#[test]
fn embedding_config_names_the_ollama_model() {
    let c = embedding_config();
    assert_eq!(c.kind, "ollama/embedding");
    assert_eq!(c.api_endpoint, Some("http://localhost:11434".to_string()));
    assert_eq!(c.model_name, Some("nomic-embed-text".to_string()));
    assert_eq!(c.request_per_minute, 6000);
}

#[test]
fn code_ingest_targets_the_repository() {
    let r = code_ingest::<u32, ()>("https://g/x".to_string(), Ok(7), "config:0".to_string()).unwrap();
    assert_eq!(r.1, 7);
    assert_eq!(r.0, Repository { git_url: "https://g/x".to_string(), source_id: "config:0".to_string() });
}

#[test]
fn code_ingest_without_config_fails() {
    let e = code_ingest::<u32, ()>("https://g/x".to_string(), Err(()), "config:0".to_string()).unwrap_err();
    assert_eq!(e, "Failed to create http config");
}

#[test]
fn code_search_targets_the_repository() {
    let r = code_search::<u32, ()>("https://g/y".to_string(), Ok(5), "config:0".to_string()).unwrap();
    assert_eq!(r.0.git_url, "https://g/y");
    assert_eq!(r.0.source_id, "config:0");
    assert_eq!(r.1, 5);
}

#[test]
fn code_search_without_config_fails_empty() {
    let e = code_search::<u32, ()>("https://g/y".to_string(), Err(()), "config:0".to_string()).unwrap_err();
    assert_eq!(e, "");
}

#[test]
fn index_success_is_reported_with_the_link() {
    let repo = Repository { git_url: "https://g/x".to_string(), source_id: "config:0".to_string() };
    assert_eq!(run_index_cli(&repo, Ok(())), Ok("https://g/x indexed".to_string()));
}

#[test]
fn index_failure_is_reported_with_the_message() {
    let repo = Repository { git_url: "https://g/x".to_string(), source_id: "config:0".to_string() };
    assert_eq!(run_index_cli(&repo, Err("no git".to_string())), Err("Error:no git".to_string()));
}
