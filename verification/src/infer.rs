//! The inference engine: samples a bounded prefix of the rows, folds every
//! non-null field into its column's candidate, and tallies the nulls.

use vstd::prelude::*;
use crate::classify::{classify, is_null, spec_classify, spec_is_null};
use crate::error::ErrorKind;
use crate::lattice::{observe, resolve, spec_observe, spec_resolve, Candidate};
use crate::schema::{Column, ColumnView, Schema};

verus! {

/// A row as a sequence of raw field values.
pub type Row = Seq<Seq<char>>;

/// The field of `row` in column `j` is null: it is missing or empty.
pub open spec fn cell_is_null(row: Row, j: int) -> bool {
    j >= row.len() || spec_is_null(row[j])
}

/// The rows that inference looks at: the first `sample_size` of them, or
/// all where there are fewer.
pub open spec fn spec_sample(rows: Seq<Row>, sample_size: nat) -> Seq<Row> {
    if sample_size < rows.len() {
        rows.take(sample_size as int)
    } else {
        rows
    }
}

/// The number of rows of `sample` whose field in column `j` is null.
pub open spec fn column_nulls(sample: Seq<Row>, j: int) -> nat
    decreases sample.len(),
{
    if sample.len() == 0 {
        0
    } else {
        column_nulls(sample.drop_last(), j) + if cell_is_null(sample.last(), j) {
            1nat
        } else {
            0nat
        }
    }
}

/// The widening fold over the non-null fields of column `j`, in row order.
pub open spec fn column_candidate(sample: Seq<Row>, j: int) -> Candidate
    decreases sample.len(),
{
    if sample.len() == 0 {
        None
    } else if cell_is_null(sample.last(), j) {
        column_candidate(sample.drop_last(), j)
    } else {
        spec_observe(column_candidate(sample.drop_last(), j), spec_classify(sample.last()[j]))
    }
}

/// Column `j` of the schema inferred from `sample` under the header `names`.
pub open spec fn spec_column(names: Row, sample: Seq<Row>, j: int) -> ColumnView {
    ColumnView {
        name: names[j],
        inferred: spec_resolve(column_candidate(sample, j)),
        null_count: column_nulls(sample, j),
    }
}

/// The schema inferred from `sample`: one column per name, in header order.
pub open spec fn spec_schema(names: Row, sample: Seq<Row>) -> Seq<ColumnView> {
    Seq::new(names.len(), |j: int| spec_column(names, sample, j))
}

/// The input holds nothing to infer from: it has no header, and so no
/// column.
pub open spec fn is_empty_input(names: Row) -> bool {
    names.len() == 0
}

/// What inference returns on the data rows `rows` under the header `names`.
pub open spec fn spec_infer(rows: Seq<Row>, names: Row, sample_size: nat) -> Result<
    Seq<ColumnView>,
    ErrorKind,
> {
    if is_empty_input(names) {
        Err(ErrorKind::EmptyInput)
    } else {
        Ok(spec_schema(names, spec_sample(rows, sample_size)))
    }
}

/// `out` is what inference returns on `rows` under `names`: the schema by
/// its view, the failure as it is.
pub open spec fn is_inferred(
    out: Result<Schema, ErrorKind>,
    rows: Seq<Row>,
    names: Row,
    sample_size: nat,
) -> bool {
    match out {
        Ok(schema) => spec_infer(rows, names, sample_size) == Ok::<Seq<ColumnView>, ErrorKind>(
            schema@,
        ),
        Err(e) => spec_infer(rows, names, sample_size) == Err::<Seq<ColumnView>, ErrorKind>(e),
    }
}

/// The running state of one column while rows are folded in.
#[derive(Clone, Copy)]
struct Tally {
    candidate: Candidate,
    nulls: usize,
}

/// The tally of column `j` stands for the first `n` rows of `rows`.
spec fn tally_covers(tally: Tally, rows: Seq<Row>, n: int, j: int) -> bool {
    &&& tally.candidate == column_candidate(rows.take(n), j)
    &&& tally.nulls == column_nulls(rows.take(n), j)
}

/// No column has more nulls than there are rows.
pub proof fn column_nulls_bounded(sample: Seq<Row>, j: int)
    ensures
        column_nulls(sample, j) <= sample.len(),
    decreases sample.len(),
{
    if sample.len() > 0 {
        column_nulls_bounded(sample.drop_last(), j);
    }
}

/// Folds one field, or the lack of one, into the tally of its column.
fn absorb(tally: Tally, field: Option<&str>) -> (out: Tally)
    requires
        tally.nulls < usize::MAX,
    ensures
        out == match field {
            Some(value) if !spec_is_null(value@) => Tally {
                candidate: spec_observe(tally.candidate, spec_classify(value@)),
                nulls: tally.nulls,
            },
            _ => Tally { candidate: tally.candidate, nulls: (tally.nulls + 1) as usize },
        },
{
    match field {
        Some(value) if !is_null(value) => Tally {
            candidate: observe(tally.candidate, classify(value)),
            nulls: tally.nulls,
        },
        _ => Tally { candidate: tally.candidate, nulls: tally.nulls + 1 },
    }
}

/// Folds row `n` of `rows` into the tallies of all columns.
fn absorb_row(tallies: &mut Vec<Tally>, rows: &Vec<Vec<String>>, n: usize)
    requires
        n < rows@.len(),
        forall|j: int|
            0 <= j < old(tallies)@.len() ==> tally_covers(
                #[trigger] old(tallies)@[j],
                rows.deep_view(),
                n as int,
                j,
            ),
    ensures
        final(tallies)@.len() == old(tallies)@.len(),
        forall|j: int|
            0 <= j < final(tallies)@.len() ==> tally_covers(
                #[trigger] final(tallies)@[j],
                rows.deep_view(),
                n + 1,
                j,
            ),
{
    let ghost model = rows.deep_view();
    let ghost before = model.take(n as int);
    let ghost after = model.take(n + 1);
    let row = &rows[n];
    assert(after.drop_last() =~= before);
    assert(after.last() == row.deep_view());
    let width = tallies.len();
    let total = rows.len();
    let mut j: usize = 0;
    while j < width
        invariant
            j <= width == tallies@.len(),
            n < total,
            before.len() == n,
            after.len() == n + 1,
            model == rows.deep_view(),
            before == model.take(n as int),
            after == model.take(n + 1),
            after.drop_last() == before,
            after.last() == row.deep_view(),
            forall|k: int| 0 <= k < j ==> tally_covers(#[trigger] tallies@[k], model, n + 1, k),
            forall|k: int| j <= k < width ==> tally_covers(#[trigger] tallies@[k], model, n as int, k),
        decreases width - j,
    {
        let tally = tallies[j];
        proof {
            column_nulls_bounded(before, j as int);
        }
        assert(tally_covers(tally, model, n as int, j as int));
        let next = if j < row.len() {
            assert(after.last()[j as int] == row@[j as int]@);
            absorb(tally, Some(row[j].as_str()))
        } else {
            assert(cell_is_null(after.last(), j as int));
            absorb(tally, None)
        };
        assert(tally_covers(next, model, n + 1, j as int));
        tallies.set(j, next);
        j += 1;
    }
}

/// Infers the schema of the data rows `rows` under the header
/// `column_names`, from the first `sample_size` rows at most.
///
/// Fails with `EmptyInput` exactly when the header is empty: input without
/// a header row holds no row at all, and rows handed in without a header
/// have no column to go to. A header without data rows gives every column
/// the type `Text` and no nulls. A field counts as null where it is empty
/// or its row is too short to hold it; fields beyond the header are not
/// looked at. With a sample size of zero no row is looked at.
pub fn infer(rows: &Vec<Vec<String>>, column_names: &Vec<String>, sample_size: usize) -> (out:
    Result<Schema, ErrorKind>)
    ensures
        is_inferred(out, rows.deep_view(), column_names.deep_view(), sample_size as nat),
        out is Err <==> column_names@.len() == 0,
        out is Ok ==> out.unwrap()@.len() == column_names@.len(),
        out is Ok ==> forall|j: int|
            0 <= j < column_names@.len() ==> {
                &&& (#[trigger] out.unwrap()@[j]).name == column_names@[j]@
                &&& out.unwrap()@[j].null_count <= sample_size
                &&& out.unwrap()@[j].null_count <= rows@.len()
            },
{
    let width = column_names.len();
    if width == 0 {
        return Err(ErrorKind::EmptyInput);
    }
    let limit = if sample_size < rows.len() {
        sample_size
    } else {
        rows.len()
    };
    let ghost model = rows.deep_view();
    let ghost names = column_names.deep_view();
    let ghost sample = spec_sample(model, sample_size as nat);
    assert(sample =~= model.take(limit as int));

    let mut tallies: Vec<Tally> = Vec::new();
    let mut j: usize = 0;
    while j < width
        invariant
            j <= width,
            tallies@.len() == j,
            forall|k: int| 0 <= k < j ==> tally_covers(#[trigger] tallies@[k], model, 0, k),
        decreases width - j,
    {
        tallies.push(Tally { candidate: None, nulls: 0 });
        j += 1;
    }

    let mut n: usize = 0;
    while n < limit
        invariant
            n <= limit <= rows@.len(),
            model == rows.deep_view(),
            tallies@.len() == width,
            forall|k: int| 0 <= k < width ==> tally_covers(#[trigger] tallies@[k], model, n as int, k),
        decreases limit - n,
    {
        absorb_row(&mut tallies, rows, n);
        n += 1;
    }

    let mut columns: Vec<Column> = Vec::new();
    let mut j: usize = 0;
    while j < width
        invariant
            j <= width == column_names@.len(),
            tallies@.len() == width,
            names == column_names.deep_view(),
            sample == model.take(limit as int),
            forall|k: int| 0 <= k < width ==> tally_covers(#[trigger] tallies@[k], model, limit as int, k),
            columns@.len() == j,
            forall|k: int| 0 <= k < j ==> (#[trigger] columns@[k])@ == spec_column(names, sample, k),
        decreases width - j,
    {
        let tally = tallies[j];
        let column = Column {
            name: column_names[j].clone(),
            inferred: resolve(tally.candidate),
            null_count: tally.nulls,
        };
        assert(names[j as int] == column_names@[j as int]@);
        columns.push(column);
        j += 1;
    }
    let ghost built = columns@.map_values(|c: Column| c@);
    assert(built =~= spec_schema(names, sample));
    let schema = Schema::of(columns);
    proof {
        assert forall|k: int| 0 <= k < width implies {
            &&& (#[trigger] schema@[k]).name == column_names@[k]@
            &&& schema@[k].null_count <= sample_size
            &&& schema@[k].null_count <= rows@.len()
        } by {
            column_nulls_bounded(sample, k);
            assert(names[k] == column_names@[k]@);
        }
    }
    Ok(schema)
}

} // verus!
