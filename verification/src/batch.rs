use vstd::prelude::*;

use crate::errors::ServiceError;

verus! {

/// Mathematical model of a batch: ordered column names, a row count, and the
/// contents of each column.
pub ghost struct BatchView {
    pub names: Seq<Seq<char>>,
    pub rows: nat,
    pub cols: Seq<Seq<i32>>,
}

/// A well-formed batch has one name per column and every column exactly as
/// long as the batch's row count.
pub open spec fn batch_wf(b: BatchView) -> bool {
    &&& b.names.len() == b.cols.len()
    &&& forall|i: int| 0 <= i < b.cols.len() ==> #[trigger] b.cols[i].len() == b.rows
}

/// The decimal digit characters, by value.
pub open spec fn digit_char(d: nat) -> char {
    if d == 0 {
        '0'
    } else if d == 1 {
        '1'
    } else if d == 2 {
        '2'
    } else if d == 3 {
        '3'
    } else if d == 4 {
        '4'
    } else if d == 5 {
        '5'
    } else if d == 6 {
        '6'
    } else if d == 7 {
        '7'
    } else if d == 8 {
        '8'
    } else {
        '9'
    }
}

/// The decimal rendering of a number, most significant digit first, with no
/// sign and no padding.
pub open spec fn dec_digits(n: nat) -> Seq<char>
    decreases n,
{
    if n < 10 {
        seq![digit_char(n)]
    } else {
        dec_digits(n / 10).push(digit_char(n % 10))
    }
}

/// The deterministic name of the column at a zero-based position:
/// `"col"` followed by the position in decimal.
pub open spec fn col_name_spec(i: nat) -> Seq<char> {
    seq!['c', 'o', 'l'] + dec_digits(i)
}

/// The synthetic content of every column: the values `0, 1, ..., rows - 1`.
pub open spec fn column_spec(rows: nat) -> Seq<i32> {
    Seq::new(rows, |j: int| j as i32)
}

/// What the builder returns for a column count and a row count.
pub open spec fn spec_build(n_cols: nat, rows: nat) -> BatchView {
    BatchView {
        names: Seq::new(n_cols, |i: int| col_name_spec(i as nat)),
        rows: rows,
        cols: Seq::new(n_cols, |i: int| column_spec(rows)),
    }
}

/// A fixed-schema group of equal-length, non-nullable 32-bit integer
/// columns: the unit of chunked transfer.
#[derive(Clone)]
pub struct Batch {
    pub names: Vec<String>,
    pub rows: usize,
    pub cols: Vec<Vec<i32>>,
}

impl View for Batch {
    type V = BatchView;

    open spec fn view(&self) -> BatchView {
        BatchView { names: self.names.deep_view(), rows: self.rows as nat, cols: self.cols.deep_view() }
    }
}

/// The views of a batch sequence, in order.
pub open spec fn batch_views(bs: Seq<Batch>) -> Seq<BatchView> {
    bs.map_values(|b: Batch| b@)
}

/// Relies on std's `format!` with `usize`'s `Display` implementation: the
/// index is rendered in decimal, without sign or padding, after the fixed
/// `"col"` prefix.
#[verifier::external_body]
fn col_name(i: usize) -> (r: String)
    ensures
        r@ == col_name_spec(i as nat),
{
    format!("col{}", i)
}

/// One synthetic column: the values `0, 1, ..., rows - 1`.
fn build_column(rows: usize) -> (r: Vec<i32>)
    requires
        rows <= i32::MAX,
    ensures
        r@ == column_spec(rows as nat),
{
    let mut v: Vec<i32> = Vec::new();
    let mut j: usize = 0;
    while j < rows
        invariant
            j <= rows,
            rows <= i32::MAX,
            v@ == column_spec(j as nat),
        decreases rows - j,
    {
        v.push(j as i32);
        proof {
            assert(v@ =~= column_spec((j + 1) as nat));
        }
        j = j + 1;
    }
    v
}

/// The deterministic column names for a schema of `n_cols` columns.
pub fn build_names(n_cols: usize) -> (r: Vec<String>)
    ensures
        r.deep_view() == Seq::new(n_cols as nat, |i: int| col_name_spec(i as nat)),
{
    let mut names: Vec<String> = Vec::new();
    let mut i: usize = 0;
    while i < n_cols
        invariant
            i <= n_cols,
            names@.len() == i,
            forall|k: int| 0 <= k < i ==> #[trigger] names@[k]@ == col_name_spec(k as nat),
        decreases n_cols - i,
    {
        names.push(col_name(i));
        i = i + 1;
    }
    proof {
        assert forall|k: int| 0 <= k < n_cols implies names.deep_view()[k] == col_name_spec(
            k as nat,
        ) by {
            assert(names@[k]@ == col_name_spec(k as nat));
        }
        assert(names.deep_view() =~= Seq::new(n_cols as nat, |i: int| col_name_spec(i as nat)));
    }
    names
}

/// The columnar batch builder: a schema of `n_cols` columns named
/// `"col0", "col1", ...`, each non-nullable 32-bit integers, and every
/// column filled with the values `0, 1, ..., rows - 1`. Deterministic and
/// pure; the fallible signature surfaces schema-construction failures, which
/// this builder is proved never to produce.
pub fn build(n_cols: usize, rows: usize) -> (r: Result<Batch, ServiceError>)
    requires
        rows <= i32::MAX,
    ensures
        r matches Ok(b) && b@ == spec_build(n_cols as nat, rows as nat),
{
    let names = build_names(n_cols);
    let mut cols: Vec<Vec<i32>> = Vec::new();
    let mut i: usize = 0;
    while i < n_cols
        invariant
            i <= n_cols,
            rows <= i32::MAX,
            cols@.len() == i,
            forall|k: int| 0 <= k < i ==> #[trigger] cols@[k]@ == column_spec(rows as nat),
        decreases n_cols - i,
    {
        cols.push(build_column(rows));
        i = i + 1;
    }
    let b = Batch { names, rows, cols };
    proof {
        assert forall|k: int| 0 <= k < n_cols implies cols.deep_view()[k] == column_spec(
            rows as nat,
        ) by {
            assert(cols@[k].deep_view() =~= cols@[k]@);
        }
        assert(b@.cols =~= spec_build(n_cols as nat, rows as nat).cols);
        assert(b@.names =~= spec_build(n_cols as nat, rows as nat).names);
        assert(b@ == spec_build(n_cols as nat, rows as nat));
    }
    Ok(b)
}

/// Check a batch's well-formedness: one name per column, every column as
/// long as the row count.
pub fn batch_is_wf(b: &Batch) -> (r: bool)
    ensures
        r == batch_wf(b@),
{
    if b.names.len() != b.cols.len() {
        return false;
    }
    let mut i: usize = 0;
    while i < b.cols.len()
        invariant
            i <= b.cols@.len(),
            forall|k: int| 0 <= k < i ==> #[trigger] b@.cols[k].len() == b@.rows,
        decreases b.cols@.len() - i,
    {
        proof {
            assert(b@.cols[i as int] == b.cols@[i as int].deep_view());
            assert(b.cols@[i as int].deep_view().len() == b.cols@[i as int]@.len());
        }
        if b.cols[i].len() != b.rows {
            return false;
        }
        i = i + 1;
    }
    true
}

/// Copy a name list; the copy's contents equal the original's.
pub fn copy_names(v: &Vec<String>) -> (r: Vec<String>)
    ensures
        r@ == v@,
        r.deep_view() == v.deep_view(),
{
    let mut r: Vec<String> = Vec::new();
    let mut i: usize = 0;
    while i < v.len()
        invariant
            i <= v@.len(),
            r@.len() == i,
            forall|k: int| 0 <= k < i ==> r@[k] == v@[k],
        decreases v@.len() - i,
    {
        r.push(v[i].clone());
        i = i + 1;
    }
    proof {
        assert(r@ =~= v@);
    }
    r
}

/// Copy one column.
fn copy_col(c: &Vec<i32>) -> (r: Vec<i32>)
    ensures
        r@ == c@,
{
    let mut r: Vec<i32> = Vec::new();
    let mut j: usize = 0;
    while j < c.len()
        invariant
            j <= c@.len(),
            r@.len() == j,
            forall|k: int| 0 <= k < j ==> r@[k] == c@[k],
        decreases c@.len() - j,
    {
        r.push(c[j]);
        j = j + 1;
    }
    proof {
        assert(r@ =~= c@);
    }
    r
}

/// Copy a column list; the copy's contents equal the original's.
fn copy_cols(v: &Vec<Vec<i32>>) -> (r: Vec<Vec<i32>>)
    ensures
        r.deep_view() == v.deep_view(),
{
    let mut r: Vec<Vec<i32>> = Vec::new();
    let mut i: usize = 0;
    while i < v.len()
        invariant
            i <= v@.len(),
            r@.len() == i,
            forall|k: int| 0 <= k < i ==> r@[k]@ == v@[k]@,
        decreases v@.len() - i,
    {
        r.push(copy_col(&v[i]));
        i = i + 1;
    }
    proof {
        assert forall|k: int| 0 <= k < v@.len() implies r.deep_view()[k] == v.deep_view()[k] by {
            assert(r@[k].deep_view() =~= r@[k]@);
            assert(v@[k].deep_view() =~= v@[k]@);
        }
        assert(r.deep_view() =~= v.deep_view());
    }
    r
}

/// Copy a batch; the copy's view equals the original's.
pub fn copy_batch(b: &Batch) -> (r: Batch)
    ensures
        r@ == b@,
{
    let names = copy_names(&b.names);
    let cols = copy_cols(&b.cols);
    Batch { names, rows: b.rows, cols }
}

/// Copy a batch list; the copies' views equal the originals'.
pub fn copy_batches(v: &Vec<Batch>) -> (r: Vec<Batch>)
    ensures
        batch_views(r@) == batch_views(v@),
        r@.len() == v@.len(),
{
    let mut r: Vec<Batch> = Vec::new();
    let mut i: usize = 0;
    while i < v.len()
        invariant
            i <= v@.len(),
            r@.len() == i,
            forall|k: int| 0 <= k < i ==> r@[k]@ == v@[k]@,
        decreases v@.len() - i,
    {
        r.push(copy_batch(&v[i]));
        i = i + 1;
    }
    proof {
        assert forall|k: int| 0 <= k < v@.len() implies batch_views(r@)[k] == batch_views(v@)[k]
        by {
            assert(batch_views(r@)[k] == r@[k]@);
            assert(batch_views(v@)[k] == v@[k]@);
        }
        assert(batch_views(r@) =~= batch_views(v@));
    }
    r
}

/// Law: every column of a built batch is exactly as long as the batch's row
/// count, and column `i` holds exactly the values `0, 1, ..., rows - 1` for
/// every `i` — the columns are content-identical within a batch.
pub proof fn lemma_build_columns(n_cols: nat, rows: nat)
    ensures
        spec_build(n_cols, rows).rows == rows,
        spec_build(n_cols, rows).names.len() == n_cols,
        spec_build(n_cols, rows).cols.len() == n_cols,
        forall|i: int| 0 <= i < n_cols ==> #[trigger] spec_build(n_cols, rows).cols[i] == column_spec(rows),
        forall|i: int| 0 <= i < n_cols ==> #[trigger] spec_build(n_cols, rows).cols[i].len() == rows,
        forall|i: int, j: int|
            0 <= i < n_cols && 0 <= j < rows ==> #[trigger] spec_build(n_cols, rows).cols[i][j] == j as i32,
        forall|i: int| 0 <= i < n_cols ==> #[trigger] spec_build(n_cols, rows).names[i] == col_name_spec(i as nat),
        batch_wf(spec_build(n_cols, rows)),
{
}

/// Law: the builder is idempotent — two batches built from the same column
/// count and row count are equal in schema and contents.
pub proof fn lemma_build_deterministic(a: BatchView, b: BatchView, n_cols: nat, rows: nat)
    requires
        a == spec_build(n_cols, rows),
        b == spec_build(n_cols, rows),
    ensures
        a == b,
{
}

} // verus!
