use tabby_index_cli::repo_list::{add_to_list, get_from_list, list_repos, ListError, Row};

fn row(repo: &str, id: &str) -> Row {
    Row { repo: repo.to_string(), id: id.to_string() }
}

#[test]
fn list_repos_lists_each_row_on_its_own_line() {
    let rows = vec![row("https://a.example/x", "config:0"), row("https://b.example/y", "config:1")];
    assert_eq!(
        list_repos(&rows),
        "link: https://a.example/x, id:config:0\nlink: https://b.example/y, id:config:1\n"
    );
}

#[test]
fn list_repos_of_no_rows_is_empty() {
    assert_eq!(list_repos(&Vec::new()), "");
}

#[test]
fn listing_of_concatenated_rows_is_concatenated_listing() {
    let a = vec![row("r1", "i1"), row("r2", "i2")];
    let b = vec![row("r3", "i3")];
    let mut ab = a.clone();
    ab.extend(b.clone());
    assert_eq!(list_repos(&ab), list_repos(&a) + &list_repos(&b));
}

#[test]
fn get_from_list_stops_before_the_listed_repository() {
    let records = vec![Some(row("a", "1")), Some(row("b", "2")), Some(row("c", "3"))];
    let scan = get_from_list(records, &"b".to_string()).unwrap();
    assert!(scan.already_listed);
    assert_eq!(scan.rows, vec![row("a", "1")]);
}

#[test]
fn get_from_list_returns_all_rows_when_not_listed() {
    let records = vec![Some(row("a", "1")), Some(row("c", "3"))];
    let scan = get_from_list(records, &"b".to_string()).unwrap();
    assert!(!scan.already_listed);
    assert_eq!(scan.rows, vec![row("a", "1"), row("c", "3")]);
}

#[test]
fn get_from_list_of_empty_list() {
    let scan = get_from_list(Vec::new(), &"b".to_string()).unwrap();
    assert!(!scan.already_listed);
    assert!(scan.rows.is_empty());
}

#[test]
fn get_from_list_fails_on_unreadable_record_before_a_match() {
    let records = vec![Some(row("a", "1")), None, Some(row("b", "2"))];
    let res = get_from_list(records, &"b".to_string());
    assert_eq!(res.err(), Some(ListError::MalformedRecord { position: 1 }));
}

#[test]
fn get_from_list_ignores_unreadable_record_after_a_match() {
    let records = vec![Some(row("b", "2")), None];
    let scan = get_from_list(records, &"b".to_string()).unwrap();
    assert!(scan.already_listed);
    assert!(scan.rows.is_empty());
}

#[test]
fn add_to_list_relabels_rows_and_appends_the_new_one() {
    let repos = vec![row("a", "config:0"), row("b", "config:7")];
    let rows = add_to_list(repos, "c".to_string(), "config:2".to_string(), "config:3".to_string());
    assert_eq!(rows, vec![row("a", "config:2"), row("b", "config:2"), row("c", "config:3")]);
}

#[test]
fn added_repository_is_found_listed() {
    let repos = vec![row("a", "config:0"), row("b", "config:1")];
    let rows = add_to_list(repos, "c".to_string(), "config:2".to_string(), "config:3".to_string());
    let scan = get_from_list(rows.into_iter().map(Some).collect(), &"c".to_string()).unwrap();
    assert!(scan.already_listed);
    assert_eq!(scan.rows, vec![row("a", "config:2"), row("b", "config:2")]);
}

#[test]
fn listing_after_adding_ends_with_the_new_line() {
    let rows = add_to_list(vec![row("a", "x")], "c".to_string(), "l".to_string(), "n".to_string());
    assert_eq!(list_repos(&rows), "link: a, id:l\nlink: c, id:n\n");
}
