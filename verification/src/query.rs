//! The answer to an SQL query on the wire.
use vstd::prelude::*;

verus! {

/// An SQL query on the wire.
#[derive(Debug, PartialEq, Eq)]
pub struct Query {
    pub sql: String,
}

/// One row of a query's answer on the wire: its values as text.
#[derive(Debug, PartialEq, Eq)]
pub struct QueryRow {
    pub values: Vec<String>,
}

impl View for QueryRow {
    type V = Seq<Seq<char>>;

    open spec fn view(&self) -> Seq<Seq<char>> {
        strings_view(self.values@)
    }
}

/// The answer to a query on the wire: its rows in order.
#[derive(Debug, PartialEq, Eq)]
pub struct QueryResults {
    pub rows: Vec<QueryRow>,
}

impl View for QueryResults {
    type V = Seq<Seq<Seq<char>>>;

    open spec fn view(&self) -> Seq<Seq<Seq<char>>> {
        self.rows@.map_values(|r: QueryRow| r@)
    }
}

/// The empty answer of the message handlers.
#[derive(Debug, PartialEq, Eq)]
pub struct Void {}

/// The view of a sequence of strings.
pub open spec fn strings_view(s: Seq<String>) -> Seq<Seq<char>> {
    s.map_values(|v: String| v@)
}

/// The view of the rows of a query's answer as the store hands them over.
pub open spec fn rows_view(rows: Seq<Vec<String>>) -> Seq<Seq<Seq<char>>> {
    rows.map_values(|r: Vec<String>| strings_view(r@))
}

/// A copy of a row's values.
fn copy_values(values: &Vec<String>) -> (res: Vec<String>)
    ensures
        strings_view(res@) == strings_view(values@),
        res@.len() == values@.len(),
        forall|j: int| 0 <= j < values@.len() ==> (#[trigger] res@[j])@ == values@[j]@,
{
    let mut out: Vec<String> = Vec::new();
    let len = values.len();
    for i in 0..len
        invariant
            len == values@.len(),
            out@.len() == i,
            forall|j: int| 0 <= j < i ==> (#[trigger] out@[j])@ == values@[j]@,
    {
        out.push(values[i].clone());
    }
    assert(strings_view(out@) =~= strings_view(values@));
    out
}

/// Puts the rows of a query's answer into their wire form: the same rows with the
/// same values, in the same order.
pub fn query_results_pr(rows: Vec<Vec<String>>) -> (res: QueryResults)
    ensures
        res@ == rows_view(rows@),
        res.rows@.len() == rows@.len(),
        forall|i: int| 0 <= i < rows@.len() ==> (#[trigger] res.rows@[i]).values@.len()
            == rows@[i]@.len(),
        forall|i: int, j: int| 0 <= i < rows@.len() && 0 <= j < rows@[i]@.len()
            ==> (#[trigger] res.rows@[i].values@[j])@ == rows@[i]@[j]@,
{
    let mut out: Vec<QueryRow> = Vec::new();
    let len = rows.len();
    for i in 0..len
        invariant
            len == rows@.len(),
            out@.len() == i,
            forall|j: int| 0 <= j < i ==> (#[trigger] out@[j])@ == strings_view(rows@[j]@),
            forall|j: int| 0 <= j < i ==> (#[trigger] out@[j]).values@.len() == rows@[j]@.len(),
            forall|j: int, k: int| 0 <= j < i && 0 <= k < rows@[j]@.len()
                ==> (#[trigger] out@[j].values@[k])@ == rows@[j]@[k]@,
    {
        out.push(QueryRow { values: copy_values(&rows[i]) });
    }
    let res = QueryResults { rows: out };
    assert(res@ =~= rows_view(rows@));
    res
}

} // verus!

verus! {

/// The wire form of a query's answer has one row per row of the answer, in
/// order, each with the same values in the same order.
pub proof fn law_rows_view(rows: Seq<Vec<String>>)
    ensures
        rows_view(rows).len() == rows.len(),
        forall|i: int| 0 <= i < rows.len() ==> (#[trigger] rows_view(rows)[i]).len()
            == rows[i]@.len(),
        forall|i: int, j: int| 0 <= i < rows.len() && 0 <= j < rows[i]@.len()
            ==> #[trigger] rows_view(rows)[i][j] == rows[i]@[j]@,
{
    assert forall|i: int, j: int| 0 <= i < rows.len() && 0 <= j < rows[i]@.len()
        implies #[trigger] rows_view(rows)[i][j] == rows[i]@[j]@ by {
        assert(rows_view(rows)[i] == strings_view(rows[i]@));
    }
}

} // verus!
