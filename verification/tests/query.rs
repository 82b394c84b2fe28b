use tabby_index_cli::config::Repository;
use tabby_index_cli::query::{join_with, run_query_cli, search_query, QueryStep, SearchOutcome};

#[test]
fn hits_are_joined_with_a_line_of_dashes() {
    let step = run_query_cli(SearchOutcome::Hits(vec!["fn a() {}".to_string(), "fn b() {}".to_string()]));
    assert_eq!(
        step,
        QueryStep::Answer("fn a() {}\n--------------------------------\nfn b() {}".to_string())
    );
}

#[test]
fn single_hit_is_answered_alone() {
    let step = run_query_cli(SearchOutcome::Hits(vec!["only".to_string()]));
    assert_eq!(step, QueryStep::Answer("only".to_string()));
}

#[test]
fn no_hits_answer_empty() {
    assert_eq!(run_query_cli(SearchOutcome::Hits(Vec::new())), QueryStep::Answer(String::new()));
}

#[test]
fn not_ready_is_retried() {
    assert_eq!(run_query_cli(SearchOutcome::NotReady), QueryStep::Retry);
}

#[test]
fn failures_answer_with_their_message() {
    assert_eq!(
        run_query_cli(SearchOutcome::TantivyError("index broken".to_string())),
        QueryStep::Answer("index broken".to_string())
    );
    assert_eq!(
        run_query_cli(SearchOutcome::QueryParserError("bad query".to_string())),
        QueryStep::Answer("bad query".to_string())
    );
    assert_eq!(
        run_query_cli(SearchOutcome::Other("other".to_string())),
        QueryStep::Answer("other".to_string())
    );
}

#[test]
fn join_with_agrees_with_std_join() {
    let parts = vec!["x".to_string(), String::new(), "yz".to_string()];
    assert_eq!(join_with(&parts, ", "), parts.join(", "));
}

#[test]
fn search_query_looks_for_rust_in_the_repository() {
    let repo = Repository { git_url: "https://g/x".to_string(), source_id: "config:0".to_string() };
    let q = search_query(&"parse".to_string(), &repo);
    assert_eq!(q.filepath, None);
    assert_eq!(q.language, Some("rust".to_string()));
    assert_eq!(q.content, "parse");
    assert_eq!(q.source_id, "config:0");
}
