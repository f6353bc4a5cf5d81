//! Reading the rows that a query returns, where each row may have failed to
//! convert to the expected column types.
use vstd::prelude::*;
use vstd::string::*;

verus! {

/// Error text of the first row that failed to convert, if any.
pub open spec fn first_row_error<R>(rows: Seq<Result<R, String>>) -> Option<Seq<char>>
    decreases rows.len(),
{
    if rows.len() == 0 {
        None
    } else {
        match first_row_error(rows.drop_last()) {
            Some(e) => Some(e),
            None => match rows.last() {
                Err(e) => Some(e@),
                Ok(_) => None,
            },
        }
    }
}

/// Error text of the first failed row of a result set; a query that
/// returned no result set has none.
pub open spec fn rows_error<R>(rows: Option<Vec<Result<R, String>>>) -> Option<Seq<char>> {
    match rows {
        Some(v) => first_row_error(v@),
        None => None,
    }
}

/// Number of rows of a result set (none when the query returned no set).
pub open spec fn row_count<R>(rows: Option<Vec<Result<R, String>>>) -> nat {
    match rows {
        Some(v) => v@.len(),
        None => 0,
    }
}

/// A prefix's first failure is the first failure of the whole.
pub proof fn lemma_first_row_error_prefix<R>(rows: Seq<Result<R, String>>, k: int)
    requires
        0 <= k <= rows.len(),
        first_row_error(rows.take(k)) is Some,
    ensures
        first_row_error(rows) == first_row_error(rows.take(k)),
    decreases rows.len() - k,
{
    if k < rows.len() {
        lemma_first_row_error_step(rows, k);
        lemma_first_row_error_prefix(rows, k + 1);
    } else {
        assert(rows.take(k) =~= rows);
    }
}

/// One more row: the failure of the longer prefix, from the shorter one.
pub proof fn lemma_first_row_error_step<R>(rows: Seq<Result<R, String>>, k: int)
    requires
        0 <= k < rows.len(),
    ensures
        first_row_error(rows.take(k + 1)) == (match first_row_error(rows.take(k)) {
            Some(e) => Some(e),
            None => match rows[k] {
                Err(e) => Some(e@),
                Ok(_) => None,
            },
        }),
{
    assert(rows.take(k + 1).drop_last() =~= rows.take(k));
    assert(rows.take(k + 1).last() == rows[k]);
}

/// Text of the error answered when a store or menu row cannot be read.
pub open spec fn locating_error_text(e: Seq<char>) -> Seq<char> {
    "Error locating stores. "@ + e
}

/// The error answered when a store or menu row cannot be read.
pub fn locating_error(e: &String) -> (m: String)
    ensures
        m@ == locating_error_text(e@),
{
    let mut m = String::from_str("Error locating stores. ");
    m.append(e.as_str());
    m
}

/// All rows of a result set, in order; the first row that failed to
/// convert makes the read fail with its error text. A query that returned
/// no result set gives no rows.
pub fn rows_or_error<R>(rows: Option<Vec<Result<R, String>>>) -> (r: Result<Vec<R>, String>)
    ensures
        r is Err <==> rows_error(rows) is Some,
        r matches Err(m) ==> m@ == locating_error_text(rows_error(rows)->0),
        r matches Ok(v) ==> v@.len() == row_count(rows) && forall|i: int|
            0 <= i < v@.len() ==> rows->0@[i] == Ok::<R, String>(#[trigger] v@[i]),
{
    let mut out: Vec<R> = Vec::new();
    match rows {
        None => Ok(out),
        Some(v) => {
            let ghost all = v@;
            let n = v.len();
            let mut rest = v;
            let mut i: usize = 0;
            while rest.len() > 0
                invariant
                    rows == Some(v),
                    all == v@,
                    all.len() == n,
                    i + rest@.len() == all.len(),
                    rest@ == all.skip(i as int),
                    out@.len() == i,
                    first_row_error(all.take(i as int)) is None,
                    forall|j: int| 0 <= j < i ==> all[j] == Ok::<R, String>(#[trigger] out@[j]),
                decreases rest@.len(),
            {
                proof {
                    lemma_first_row_error_step(all, i as int);
                }
                let row = rest.remove(0);
                assert(rest@ =~= all.skip(i as int + 1));
                match row {
                    Ok(x) => {
                        out.push(x);
                    },
                    Err(e) => {
                        proof {
                            lemma_first_row_error_prefix(all, i as int + 1);
                        }
                        return Err(locating_error(&e));
                    },
                }
                i = i + 1;
            }
            assert(all.take(i as int) =~= all);
            Ok(out)
        },
    }
}

} // verus!
