//! Code search: the query sent for a repository, and what each outcome of a
//! search attempt leads to.

use vstd::prelude::*;
use crate::config::Repository;

verus! {

/// The line that separates two hits in a search answer.
pub open spec fn hit_separator() -> Seq<char> {
    "\n--------------------------------\n"@
}

/// `parts` joined by `sep`: `sep` between each two neighbours, none at the ends.
pub open spec fn joined(parts: Seq<Seq<char>>, sep: Seq<char>) -> Seq<char>
    decreases parts.len(),
{
    if parts.len() == 0 {
        Seq::empty()
    } else if parts.len() == 1 {
        parts[0]
    } else {
        joined(parts.drop_last(), sep) + sep + parts.last()
    }
}

/// Joining no parts gives nothing, joining one part gives that part, and
/// joining one more part after a non-empty run appends the separator and
/// then the whole of that part: every part appears, in order, once.
pub proof fn lemma_joined_parts(parts: Seq<Seq<char>>, p: Seq<char>, sep: Seq<char>)
    ensures
        joined(Seq::<Seq<char>>::empty(), sep) == Seq::<char>::empty(),
        joined(seq![p], sep) == p,
        parts.len() > 0 ==> joined(parts.push(p), sep) == joined(parts, sep) + sep + p,
{
    assert(parts.push(p).drop_last() =~= parts);
}

/// The joined text is as long as all parts together plus one separator
/// between each two neighbours.
pub proof fn lemma_joined_len(parts: Seq<Seq<char>>, sep: Seq<char>)
    ensures
        parts.len() > 0 ==> joined(parts, sep).len() == total_len(parts) + (parts.len() - 1) * sep.len(),
    decreases parts.len(),
{
    if parts.len() == 1 {
        assert(total_len(parts.drop_last()) == 0);
    } else if parts.len() > 1 {
        let init = parts.drop_last();
        lemma_joined_len(init, sep);
        lemma_joined_parts(init, parts.last(), sep);
        assert(init.push(parts.last()) =~= parts);
        assert(total_len(parts) == total_len(init) + parts.last().len());
        assert((parts.len() - 1) * sep.len() == (init.len() - 1) * sep.len() + sep.len()) by (nonlinear_arith)
            requires parts.len() == init.len() + 1;
    }
}

/// The number of characters in all parts together.
pub open spec fn total_len(parts: Seq<Seq<char>>) -> nat
    decreases parts.len(),
{
    if parts.len() == 0 {
        0
    } else {
        total_len(parts.drop_last()) + parts.last().len()
    }
}

/// The views of a sequence of strings.
pub open spec fn strings_view(v: Seq<String>) -> Seq<Seq<char>> {
    v.map_values(|s: String| s@)
}

/// Joins `parts` with `sep` between each two neighbours.
pub fn join_with(parts: &Vec<String>, sep: &str) -> (out: String)
    ensures
        out@ == joined(strings_view(parts@), sep@),
{
    let mut out = String::new();
    let n = parts.len();
    let mut i: usize = 0;
    while i < n
        invariant
            n == parts.len(),
            i <= n,
            out@ == joined(strings_view(parts@.take(i as int)), sep@),
        decreases n - i,
    {
        proof {
            assert(strings_view(parts@.take(i + 1)).drop_last() =~= strings_view(parts@.take(i as int)));
        }
        if i > 0 {
            out.append(sep);
        } else {
            assert(strings_view(parts@.take(1))[0] == parts@[0]@);
        }
        out.append(parts[i].as_str());
        i = i + 1;
    }
    proof {
        assert(parts@.take(n as int) =~= parts@);
    }
    out
}

/// A search for code in a repository: no file path, the language, the text
/// searched for, and the id of the repository's index.
#[derive(Debug, Clone, PartialEq, Eq)]
pub struct SearchQuery {
    pub filepath: Option<String>,
    pub language: Option<String>,
    pub content: String,
    pub source_id: String,
}

/// The query for `query` in `repository`: code written in Rust, anywhere in
/// the repository's index.
pub fn search_query(query: &String, repository: &Repository) -> (q: SearchQuery)
    ensures
        q.filepath is None,
        q.language matches Some(l) && l@ == "rust"@,
        q.content@ == query@,
        q.source_id@ == repository.source_id@,
{
    SearchQuery {
        filepath: None,
        language: Some(String::from_str("rust")),
        content: query.clone(),
        source_id: repository.source_id.clone(),
    }
}

/// What one search attempt gave back.
#[derive(Debug, Clone, PartialEq, Eq)]
pub enum SearchOutcome {
    /// The bodies of the documents found, best first.
    Hits(Vec<String>),
    /// The index is not ready yet.
    NotReady,
    /// The index failed, with its message.
    TantivyError(String),
    /// The query could not be parsed, with the message.
    QueryParserError(String),
    /// Another failure, with its message.
    Other(String),
}

/// What follows a search attempt.
#[derive(Debug, Clone, PartialEq, Eq)]
pub enum QueryStep {
    /// Search again.
    Retry,
    /// The search is over, with this answer.
    Answer(String),
}

/// Decides what follows a search attempt: a search that found documents
/// answers with their bodies, separated by a line of dashes; a failure
/// answers with its message; an index that is not ready yet is searched
/// again.
pub fn run_query_cli(outcome: SearchOutcome) -> (step: QueryStep)
    ensures
        match outcome {
            SearchOutcome::Hits(bodies) => step matches QueryStep::Answer(a)
                && a@ == joined(strings_view(bodies@), hit_separator()),
            SearchOutcome::NotReady => step is Retry,
            SearchOutcome::TantivyError(m) => step matches QueryStep::Answer(a) && a@ == m@,
            SearchOutcome::QueryParserError(m) => step matches QueryStep::Answer(a) && a@ == m@,
            SearchOutcome::Other(m) => step matches QueryStep::Answer(a) && a@ == m@,
        },
{
    match outcome {
        SearchOutcome::Hits(bodies) => QueryStep::Answer(
            join_with(&bodies, "\n--------------------------------\n"),
        ),
        SearchOutcome::NotReady => QueryStep::Retry,
        SearchOutcome::TantivyError(m) => QueryStep::Answer(m),
        SearchOutcome::QueryParserError(m) => QueryStep::Answer(m),
        SearchOutcome::Other(m) => QueryStep::Answer(m),
    }
}

} // verus!
