//! The list of indexed repositories: one row per repository, with the link
//! of the repository and the id of its index configuration.

use vstd::prelude::*;

verus! {

/// One line of the repository list.
#[derive(Debug, Clone, PartialEq, Eq)]
pub struct Row {
    pub repo: String,
    pub id: String,
}

/// What a `Row` holds, as sequences of characters.
pub struct RowView {
    pub repo: Seq<char>,
    pub id: Seq<char>,
}

impl View for Row {
    type V = RowView;

    open spec fn view(&self) -> RowView {
        RowView { repo: self.repo@, id: self.id@ }
    }
}

/// The views of a sequence of rows.
pub open spec fn rows_view(rows: Seq<Row>) -> Seq<RowView> {
    rows.map_values(|r: Row| r@)
}

/// The text that lists one repository: `link: <repo>, id:<id>` and a line break.
pub open spec fn listing_line(r: RowView) -> Seq<char> {
    "link: "@ + r.repo + ", id:"@ + r.id + "\n"@
}

/// The text that lists all rows, one line per row, in their order.
pub open spec fn listing(rows: Seq<RowView>) -> Seq<char>
    decreases rows.len(),
{
    if rows.len() == 0 {
        Seq::empty()
    } else {
        listing(rows.drop_last()) + listing_line(rows.last())
    }
}

/// Lists the given rows as text, one `link: <repo>, id:<id>` line each.
pub fn list_repos(rows: &Vec<Row>) -> (out: String)
    ensures
        out@ == listing(rows_view(rows@)),
{
    let mut out = String::new();
    let n = rows.len();
    let mut i: usize = 0;
    while i < n
        invariant
            n == rows.len(),
            i <= n,
            out@ == listing(rows_view(rows@.take(i as int))),
        decreases n - i,
    {
        let row = &rows[i];
        proof {
            assert(rows_view(rows@.take(i + 1)).drop_last() =~= rows_view(rows@.take(i as int)));
        }
        out.append("link: ");
        out.append(row.repo.as_str());
        out.append(", id:");
        out.append(row.id.as_str());
        out.append("\n");
        i = i + 1;
    }
    proof {
        assert(rows@.take(n as int) =~= rows@);
    }
    out
}


/// A record read from the list: `None` where the line could not be read as a row.
pub open spec fn record_view(rec: Option<Row>) -> Option<RowView> {
    match rec {
        Some(r) => Some(r@),
        None => None,
    }
}

/// The views of a sequence of records.
pub open spec fn records_view(recs: Seq<Option<Row>>) -> Seq<Option<RowView>> {
    recs.map_values(|rec: Option<Row>| record_view(rec))
}

/// A record ends the scan for `repository` when it is unreadable or lists `repository`.
pub open spec fn stops_scan(rec: Option<RowView>, repository: Seq<char>) -> bool {
    match rec {
        Some(r) => r.repo == repository,
        None => true,
    }
}

/// The position of the first record that ends the scan, or the number of
/// records where none does.
pub open spec fn first_stop(recs: Seq<Option<RowView>>, repository: Seq<char>) -> nat
    decreases recs.len(),
{
    if recs.len() == 0 {
        0
    } else if stops_scan(recs[0], repository) {
        0
    } else {
        1 + first_stop(recs.drop_first(), repository)
    }
}

/// The row inside a record (of the records that precede the first stop, all are rows).
pub open spec fn record_row(rec: Option<RowView>) -> RowView {
    rec->0
}

/// What a scan of the list for a repository finds.
pub enum ScanView {
    /// The rows before the repository's own row, or all rows where it is not
    /// listed, and whether it is listed.
    Listed { rows: Seq<RowView>, already_listed: bool },
    /// The record at `position` could not be read, and no earlier row lists
    /// the repository.
    Malformed { position: nat },
}

/// The result of scanning `recs`, front to back, for `repository`.
pub open spec fn scan_records(recs: Seq<Option<RowView>>, repository: Seq<char>) -> ScanView {
    let k = first_stop(recs, repository);
    if k < recs.len() && recs[k as int] is None {
        ScanView::Malformed { position: k }
    } else {
        ScanView::Listed {
            rows: recs.take(k as int).map_values(|rec: Option<RowView>| record_row(rec)),
            already_listed: k < recs.len(),
        }
    }
}

/// The rows read before the scan stopped, and whether the repository is listed.
#[derive(Debug, Clone, PartialEq, Eq)]
pub struct ListScan {
    pub rows: Vec<Row>,
    pub already_listed: bool,
}

/// Why the list could not be scanned.
#[derive(Debug, Clone, PartialEq, Eq)]
pub enum ListError {
    /// The record at this position (counted from 0) is not a row.
    MalformedRecord { position: usize },
}

/// The view of a scan's outcome.
pub open spec fn scan_result_view(res: Result<ListScan, ListError>) -> ScanView {
    match res {
        Ok(scan) => ScanView::Listed { rows: rows_view(scan.rows@), already_listed: scan.already_listed },
        Err(ListError::MalformedRecord { position }) => ScanView::Malformed { position: position as nat },
    }
}

/// `first_stop` is the first position whose record stops the scan.
pub proof fn lemma_first_stop_at(recs: Seq<Option<RowView>>, repository: Seq<char>, k: int)
    requires
        0 <= k <= recs.len(),
        forall|j: int| 0 <= j < k ==> !stops_scan(#[trigger] recs[j], repository),
        k == recs.len() || stops_scan(recs[k], repository),
    ensures
        first_stop(recs, repository) == k,
    decreases k,
{
    if k > 0 {
        let rest = recs.drop_first();
        assert forall|j: int| 0 <= j < k - 1 implies !stops_scan(#[trigger] rest[j], repository) by {
            assert(rest[j] == recs[j + 1]);
        }
        if k < recs.len() {
            assert(rest[k - 1] == recs[k]);
        }
        lemma_first_stop_at(rest, repository, k - 1);
    }
}

/// Scans the records of the list, front to back, for `repository`: collects
/// the rows up to the first row that lists it (that row and the rest are not
/// read), and says whether it is listed. A record that cannot be read before
/// that point makes the scan fail with its position.
pub fn get_from_list(records: Vec<Option<Row>>, repository: &String) -> (res: Result<ListScan, ListError>)
    ensures
        scan_result_view(res) == scan_records(records_view(records@), repository@),
{
    let ghost recs = records@;
    let ghost rv = records_view(recs);
    let mut rows: Vec<Row> = Vec::new();
    for rec in it: records.into_iter()
        invariant
            it.seq() == recs,
            rv == records_view(recs),
            rows@.len() == it.index(),
            it.index() <= recs.len(),
            forall|j: int| 0 <= j < it.index() ==> !stops_scan(#[trigger] rv[j], repository@),
            forall|j: int| 0 <= j < it.index() ==> Some(#[trigger] rows@[j]@) == rv[j],
    {
        let ghost i = it.index();
        assert(rv[i as int] == record_view(recs[i as int]));
        match rec {
            None => {
                proof {
                    lemma_first_stop_at(rv, repository@, i as int);
                }
                return Err(ListError::MalformedRecord { position: rows.len() });
            },
            Some(row) => {
                if row.repo == *repository {
                    proof {
                        lemma_first_stop_at(rv, repository@, i as int);
                        assert(rows_view(rows@) =~= rv.take(i as int).map_values(
                            |r: Option<RowView>| record_row(r),
                        ));
                    }
                    return Ok(ListScan { rows, already_listed: true });
                }
                rows.push(row);
            },
        }
    }
    proof {
        lemma_first_stop_at(rv, repository@, recs.len() as int);
        assert(rows_view(rows@) =~= rv.take(recs.len() as int).map_values(
            |r: Option<RowView>| record_row(r),
        ));
    }
    Ok(ListScan { rows, already_listed: false })
}


/// The rows that the list holds after `url` is added to `repos`: every
/// earlier row keeps its repository and takes `listed_id` as its id, and a
/// row for `url` with `new_id` comes last.
pub open spec fn rows_after_adding(
    repos: Seq<RowView>,
    url: Seq<char>,
    listed_id: Seq<char>,
    new_id: Seq<char>,
) -> Seq<RowView> {
    repos.map_values(|r: RowView| RowView { repo: r.repo, id: listed_id }).push(
        RowView { repo: url, id: new_id },
    )
}

/// The rows to write to the list when `url` is added to `repos`: the earlier
/// rows in their order, each with `listed_id` as its id, then a row for
/// `url` with `new_id`.
pub fn add_to_list(repos: Vec<Row>, url: String, listed_id: String, new_id: String) -> (rows: Vec<Row>)
    ensures
        rows_view(rows@) == rows_after_adding(rows_view(repos@), url@, listed_id@, new_id@),
{
    let ghost old_repos = repos@;
    let mut rows: Vec<Row> = Vec::new();
    for record in it: repos.into_iter()
        invariant
            it.seq() == old_repos,
            rows@.len() == it.index(),
            it.index() <= old_repos.len(),
            forall|j: int| 0 <= j < it.index() ==> (#[trigger] rows@[j]).repo@ == old_repos[j].repo@
                && rows@[j].id@ == listed_id@,
    {
        rows.push(Row { repo: record.repo, id: listed_id.clone() });
    }
    rows.push(Row { repo: url, id: new_id });
    proof {
        assert(rows_view(rows@) =~= rows_after_adding(rows_view(old_repos), url@, listed_id@, new_id@));
    }
    rows
}


/// Listing two runs of rows one after the other gives the listing of the
/// first followed by the listing of the second.
pub proof fn lemma_listing_concat(a: Seq<RowView>, b: Seq<RowView>)
    ensures
        listing(a + b) == listing(a) + listing(b),
    decreases b.len(),
{
    if b.len() == 0 {
        assert(a + b =~= a);
    } else {
        assert((a + b).drop_last() =~= a + b.drop_last());
        assert((a + b).last() == b.last());
        lemma_listing_concat(a, b.drop_last());
        assert(listing(a) + listing(b.drop_last()) + listing_line(b.last()) =~= listing(a) + (
        listing(b.drop_last()) + listing_line(b.last())));
    }
}

/// The listing of one row shows its full link and its full id:
/// `link: <repo>, id:<id>` and a line break; the listing of more rows is
/// the listing of the earlier ones followed by that line for the last.
pub proof fn lemma_listing_rows(rows: Seq<RowView>, r: RowView)
    ensures
        listing(seq![r]) == "link: "@ + r.repo + ", id:"@ + r.id + "\n"@,
        listing(rows.push(r)) == listing(rows) + ("link: "@ + r.repo + ", id:"@ + r.id + "\n"@),
        listing(Seq::<RowView>::empty()) == Seq::<char>::empty(),
{
    assert(seq![r].drop_last() =~= Seq::<RowView>::empty());
    assert(listing(Seq::<RowView>::empty()) == Seq::<char>::empty());
    assert(listing(seq![r]) == listing(Seq::<RowView>::empty()) + listing_line(r));
    assert(rows.push(r).drop_last() =~= rows);
    assert(Seq::<char>::empty() + ("link: "@ + r.repo + ", id:"@ + r.id + "\n"@) =~= "link: "@ + r.repo
        + ", id:"@ + r.id + "\n"@);
}

/// A scan fails only at an unreadable record that comes before every row
/// listing the repository; a list whose records are all readable always
/// scans; and a scan that finds the repository listed stops right at a
/// readable row that lists it, after rows that do not.
pub proof fn lemma_scan_outcome(recs: Seq<Option<RowView>>, repository: Seq<char>)
    ensures
        scan_records(recs, repository) matches ScanView::Malformed { position } ==> {
            &&& position < recs.len()
            &&& recs[position as int] is None
            &&& forall|j: int| 0 <= j < position ==> (#[trigger] recs[j]) is Some && recs[j]->0.repo != repository
        },
        (forall|j: int| 0 <= j < recs.len() ==> (#[trigger] recs[j]) is Some) ==> scan_records(recs, repository) is Listed,
        scan_records(recs, repository) matches ScanView::Listed { rows, already_listed } ==> {
            &&& forall|j: int| 0 <= j < rows.len() ==> recs[j] == Some(#[trigger] rows[j]) && rows[j].repo != repository
            &&& already_listed ==> rows.len() < recs.len() && recs[rows.len() as int] is Some
                && recs[rows.len() as int]->0.repo == repository
            &&& !already_listed ==> rows.len() == recs.len()
        },
{
    lemma_first_stop_bounds(recs, repository);
    let k = first_stop(recs, repository) as int;
    assert forall|j: int| 0 <= j < k implies (#[trigger] recs[j]) is Some && recs[j]->0.repo != repository by {
        assert(!stops_scan(recs[j], repository));
    }
    if scan_records(recs, repository) is Listed {
        let rows = recs.take(k).map_values(|rec: Option<RowView>| record_row(rec));
        assert(rows.len() == k);
        assert forall|j: int| 0 <= j < rows.len() implies recs[j] == Some(#[trigger] rows[j]) && rows[j].repo != repository by {
            assert(recs[j] is Some && recs[j]->0.repo != repository);
        }
        if k < recs.len() {
            assert(stops_scan(recs[k], repository));
        }
    }
}

/// Each row the scan returns is the row of the record at the same position,
/// none of them lists the repository, and the scan reports the repository as
/// listed exactly when a readable row that lists it comes before any
/// unreadable record; where every record is a readable row and none lists
/// it, the scan returns all of them.
pub proof fn lemma_scan_rows(recs: Seq<Option<RowView>>, repository: Seq<char>)
    ensures
        scan_records(recs, repository) matches ScanView::Listed { rows, already_listed } ==> {
            &&& rows.len() <= recs.len()
            &&& forall|i: int| 0 <= i < rows.len() ==> recs[i] == Some(#[trigger] rows[i])
            &&& forall|i: int| 0 <= i < rows.len() ==> (#[trigger] rows[i]).repo != repository
            &&& already_listed <==> exists|i: int|
                0 <= i < recs.len() && (#[trigger] recs[i]) == Some(RowView { repo: repository, id: recs[i]->0.id })
                && forall|j: int| 0 <= j < i ==> !stops_scan(#[trigger] recs[j], repository)
        },
        (forall|i: int| 0 <= i < recs.len() ==> (#[trigger] recs[i]) is Some && recs[i]->0.repo != repository)
            ==> scan_records(recs, repository) == (ScanView::Listed {
            rows: recs.map_values(|rec: Option<RowView>| record_row(rec)),
            already_listed: false,
        }),
{
    lemma_first_stop_bounds(recs, repository);
    let k = first_stop(recs, repository) as int;
    if (forall|i: int| 0 <= i < recs.len() ==> (#[trigger] recs[i]) is Some && recs[i]->0.repo != repository) {
        if k < recs.len() {
            assert(recs[k] is Some && recs[k]->0.repo != repository);
        }
        assert(recs.take(k) =~= recs);
    }
    if scan_records(recs, repository) is Listed {
        let rows = recs.take(k).map_values(|rec: Option<RowView>| record_row(rec));
        assert forall|i: int| 0 <= i < rows.len() implies recs[i] == Some(#[trigger] rows[i]) by {
            assert(!stops_scan(recs[i], repository));
        }
        if k < recs.len() {
            assert(recs[k] == Some(RowView { repo: repository, id: recs[k]->0.id }));
        } else {
            assert forall|i: int|
                0 <= i < recs.len() && (#[trigger] recs[i]) == Some(
                    RowView { repo: repository, id: recs[i]->0.id },
                ) implies !forall|j: int| 0 <= j < i ==> !stops_scan(#[trigger] recs[j], repository) by {
                assert(!stops_scan(recs[i], repository));
            }
        }
    }
}

/// `first_stop` lies within the records, and every record before it lets the scan go on.
pub proof fn lemma_first_stop_bounds(recs: Seq<Option<RowView>>, repository: Seq<char>)
    ensures
        first_stop(recs, repository) <= recs.len(),
        forall|j: int| 0 <= j < first_stop(recs, repository) ==> !stops_scan(#[trigger] recs[j], repository),
        first_stop(recs, repository) < recs.len() ==> stops_scan(recs[first_stop(recs, repository) as int], repository),
    decreases recs.len(),
{
    if recs.len() > 0 && !stops_scan(recs[0], repository) {
        let rest = recs.drop_first();
        lemma_first_stop_bounds(rest, repository);
        assert forall|j: int| 0 <= j < first_stop(recs, repository) implies !stops_scan(#[trigger] recs[j], repository) by {
            if j > 0 {
                assert(recs[j] == rest[j - 1]);
            }
        }
        if first_stop(recs, repository) < recs.len() {
            assert(recs[first_stop(recs, repository) as int] == rest[first_stop(rest, repository) as int]);
        }
    }
}

/// Once a repository has been added to a list that did not hold it, a scan
/// of the new list for it finds it listed and returns the earlier rows, in
/// their order and with their new id.
pub proof fn lemma_added_repository_is_listed(
    repos: Seq<RowView>,
    url: Seq<char>,
    listed_id: Seq<char>,
    new_id: Seq<char>,
)
    requires
        forall|i: int| 0 <= i < repos.len() ==> (#[trigger] repos[i]).repo != url,
    ensures
        scan_records(
            rows_after_adding(repos, url, listed_id, new_id).map_values(|r: RowView| Some(r)),
            url,
        ) == (ScanView::Listed {
            rows: repos.map_values(|r: RowView| RowView { repo: r.repo, id: listed_id }),
            already_listed: true,
        }),
{
    let written = rows_after_adding(repos, url, listed_id, new_id);
    let recs = written.map_values(|r: RowView| Some(r));
    let n = repos.len() as int;
    assert forall|j: int| 0 <= j < n implies !stops_scan(#[trigger] recs[j], url) by {
        assert(recs[j] == Some(written[j]));
        assert(written[j].repo == repos[j].repo);
    }
    assert(recs[n] == Some(RowView { repo: url, id: new_id }));
    lemma_first_stop_at(recs, url, n);
    assert(recs.take(n).map_values(|rec: Option<RowView>| record_row(rec)) =~= repos.map_values(
        |r: RowView| RowView { repo: r.repo, id: listed_id },
    ));
}

/// The listing of a list after a repository is added ends with that
/// repository's line, after the lines of the earlier rows.
pub proof fn lemma_listing_after_adding(
    repos: Seq<RowView>,
    url: Seq<char>,
    listed_id: Seq<char>,
    new_id: Seq<char>,
)
    ensures
        listing(rows_after_adding(repos, url, listed_id, new_id)) == listing(
            repos.map_values(|r: RowView| RowView { repo: r.repo, id: listed_id }),
        ) + listing_line(RowView { repo: url, id: new_id }),
{
    let written = rows_after_adding(repos, url, listed_id, new_id);
    assert(written.drop_last() =~= repos.map_values(|r: RowView| RowView { repo: r.repo, id: listed_id }));
}

} // verus!
