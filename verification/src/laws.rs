//! What holds of inference on every input.

use vstd::prelude::*;
use crate::classify::spec_classify;
use crate::error::ErrorKind;
use crate::infer::{
    cell_is_null, column_candidate, column_nulls, is_inferred, spec_column, spec_infer,
    spec_sample, spec_schema, Row,
};
use crate::lattice::{candidate_le, spec_resolve, ColumnType};
use crate::report::is_run_result;
use crate::schema::{ColumnView, Schema};

verus! {

/// No column has more nulls than rows were sampled, and no more rows are
/// sampled than the sample size or the number of rows there are.
pub proof fn nulls_within_sample(rows: Seq<Row>, names: Row, sample_size: nat, j: int)
    requires
        0 <= j < names.len(),
    ensures
        spec_sample(rows, sample_size).len() == if sample_size < rows.len() {
            sample_size
        } else {
            rows.len()
        },
        spec_schema(names, spec_sample(rows, sample_size))[j].null_count <= spec_sample(
            rows,
            sample_size,
        ).len(),
        spec_schema(names, spec_sample(rows, sample_size))[j].null_count <= sample_size,
        spec_schema(names, spec_sample(rows, sample_size))[j].null_count <= rows.len(),
{
    crate::infer::column_nulls_bounded(spec_sample(rows, sample_size), j);
}

/// The schema has one column per header field, and column `j` carries the
/// name of header field `j`.
pub proof fn columns_follow_header(names: Row, sample: Seq<Row>, j: int)
    requires
        0 <= j < names.len(),
    ensures
        spec_schema(names, sample).len() == names.len(),
        spec_schema(names, sample)[j].name == names[j],
{
}

/// The fields of `row` in the order `order`: position `k` takes the field
/// of column `order[k]`, or an empty one where the row is too short.
pub open spec fn reordered(row: Row, order: Seq<int>) -> Row {
    Seq::new(
        order.len(),
        |k: int|
            if 0 <= order[k] < row.len() {
                row[order[k]]
            } else {
                Seq::<char>::empty()
            },
    )
}

/// Every row of `rows` in the order `order`.
pub open spec fn reordered_rows(rows: Seq<Row>, order: Seq<int>) -> Seq<Row> {
    rows.map_values(|row: Row| reordered(row, order))
}

/// Column `k` of reordered rows has the candidate and the nulls of the
/// column it was taken from.
pub proof fn reordered_column(sample: Seq<Row>, order: Seq<int>, k: int)
    requires
        0 <= k < order.len(),
        0 <= order[k],
    ensures
        column_candidate(reordered_rows(sample, order), k) == column_candidate(sample, order[k]),
        column_nulls(reordered_rows(sample, order), k) == column_nulls(sample, order[k]),
    decreases sample.len(),
{
    if sample.len() > 0 {
        reordered_column(sample.drop_last(), order, k);
        assert(reordered_rows(sample, order).drop_last() =~= reordered_rows(
            sample.drop_last(),
            order,
        ));
        assert(reordered_rows(sample, order).last() == reordered(sample.last(), order));
    }
}

/// Reordering the header and the fields of every row alike reorders the
/// columns of the result in the same way, and changes nothing else.
pub proof fn reordering_columns_reorders_schema(
    rows: Seq<Row>,
    names: Row,
    sample_size: nat,
    order: Seq<int>,
)
    requires
        order.len() == names.len(),
        forall|k: int| 0 <= k < order.len() ==> 0 <= #[trigger] order[k] < names.len(),
    ensures
        spec_infer(rows, names, sample_size) is Err <==> spec_infer(
            reordered_rows(rows, order),
            reordered(names, order),
            sample_size,
        ) is Err,
        spec_infer(rows, names, sample_size) matches Ok(schema) ==> spec_infer(
            reordered_rows(rows, order),
            reordered(names, order),
            sample_size,
        ) == Ok::<Seq<ColumnView>, ErrorKind>(Seq::new(order.len(), |k: int| schema[order[k]])),
{
    assert(reordered(names, order).len() == names.len());
    let sample = spec_sample(rows, sample_size);
    let moved = spec_sample(reordered_rows(rows, order), sample_size);
    assert(moved =~= reordered_rows(sample, order));
    let schema = spec_schema(names, sample);
    let expected = Seq::new(order.len(), |k: int| schema[order[k]]);
    assert forall|k: int| 0 <= k < order.len() implies spec_column(
        reordered(names, order),
        moved,
        k,
    ) == expected[k] by {
        reordered_column(sample, order, k);
    }
    assert(spec_schema(reordered(names, order), moved) =~= expected);
}

/// Inference is a function of its input: two runs on the same rows, header
/// and sample size fail alike or give schemas with the same columns.
pub proof fn inference_is_repeatable(
    rows: Seq<Row>,
    names: Row,
    sample_size: nat,
    first: Result<Schema, ErrorKind>,
    second: Result<Schema, ErrorKind>,
)
    requires
        is_inferred(first, rows, names, sample_size),
        is_inferred(second, rows, names, sample_size),
    ensures
        first is Err <==> second is Err,
        first is Err ==> first->Err_0 == second->Err_0,
        first is Ok ==> first->Ok_0@ == second->Ok_0@,
{
}

/// A run is a function of the contents it is given: two runs with the same
/// path and sample size succeed alike and draw the same table, or fail
/// alike with the same kind of failure.
pub proof fn run_is_repeatable(
    path: String,
    sample_size: nat,
    contents: Seq<u8>,
    first: Result<String, ErrorKind>,
    second: Result<String, ErrorKind>,
)
    requires
        is_run_result(first, path, sample_size, contents),
        is_run_result(second, path, sample_size, contents),
    ensures
        first is Ok <==> second is Ok,
        first is Ok ==> first->Ok_0@ == second->Ok_0@,
        first is Err ==> {
            ||| first->Err_0 == second->Err_0
            ||| first->Err_0 is MalformedRecord && second->Err_0 is MalformedRecord
        },
{
}

/// One more row never narrows the candidate of a column. A column that has
/// a type from some value keeps it or widens it; a non-null field makes the
/// column at least as wide as the field's own type.
pub proof fn one_more_row_never_narrows(sample: Seq<Row>, row: Row, j: int)
    requires
        0 <= j,
    ensures
        candidate_le(column_candidate(sample, j), column_candidate(sample.push(row), j)),
        column_candidate(sample, j) is Some ==> spec_resolve(column_candidate(sample, j)).le(
            spec_resolve(column_candidate(sample.push(row), j)),
        ),
        !cell_is_null(row, j) ==> spec_classify(row[j]).le(
            spec_resolve(column_candidate(sample.push(row), j)),
        ),
{
    assert(sample.push(row).drop_last() =~= sample);
}

/// A text value makes its column `Text`, whatever the column was; an
/// integer value leaves a `Float` column `Float`.
pub proof fn text_wins_and_float_stays(sample: Seq<Row>, row: Row, j: int)
    requires
        0 <= j,
        !cell_is_null(row, j),
    ensures
        spec_classify(row[j]) == ColumnType::Text ==> spec_resolve(
            column_candidate(sample.push(row), j),
        ) == ColumnType::Text,
        spec_classify(row[j]) == ColumnType::Integer && column_candidate(sample, j) == Some(
            ColumnType::Float,
        ) ==> spec_resolve(column_candidate(sample.push(row), j)) == ColumnType::Float,
{
    assert(sample.push(row).drop_last() =~= sample);
}

/// More rows never narrow a candidate: the candidate over a prefix of the
/// sample is at most the candidate over the whole.
pub proof fn longer_sample_never_narrows(sample: Seq<Row>, n: int, j: int)
    requires
        0 <= j,
        0 <= n <= sample.len(),
    ensures
        candidate_le(column_candidate(sample.take(n), j), column_candidate(sample, j)),
    decreases sample.len() - n,
{
    if n < sample.len() {
        longer_sample_never_narrows(sample, n + 1, j);
        assert(sample.take(n + 1) =~= sample.take(n).push(sample[n]));
        one_more_row_never_narrows(sample.take(n), sample[n], j);
    } else {
        assert(sample.take(n) =~= sample);
    }
}

/// A column whose sampled fields are all null resolves to `Text`, with as
/// many nulls as rows were sampled.
pub proof fn null_only_column_is_text(names: Row, sample: Seq<Row>, j: int)
    requires
        0 <= j < names.len(),
        forall|i: int| 0 <= i < sample.len() ==> cell_is_null(#[trigger] sample[i], j),
    ensures
        column_candidate(sample, j) is None,
        spec_schema(names, sample)[j].inferred == ColumnType::Text,
        spec_schema(names, sample)[j].null_count == sample.len(),
    decreases sample.len(),
{
    if sample.len() > 0 {
        let rest = sample.drop_last();
        assert forall|i: int| 0 <= i < rest.len() implies cell_is_null(#[trigger] rest[i], j) by {
            assert(rest[i] == sample[i]);
        }
        null_only_column_is_text(names, rest, j);
        assert(cell_is_null(sample[sample.len() - 1], j));
    }
}

/// The type of a column bounds the type of each of its non-null fields, and
/// is the type of one of them where there is any.
pub proof fn column_type_is_widest_value(sample: Seq<Row>, j: int)
    requires
        0 <= j,
    ensures
        forall|i: int|
            0 <= i < sample.len() && !cell_is_null(#[trigger] sample[i], j) ==> candidate_le(
                Some(spec_classify(sample[i][j])),
                column_candidate(sample, j),
            ),
        column_candidate(sample, j) matches Some(t) ==> exists|i: int|
            0 <= i < sample.len() && !cell_is_null(#[trigger] sample[i], j) && spec_classify(
                sample[i][j],
            ) == t,
        column_candidate(sample, j) is None ==> forall|i: int|
            0 <= i < sample.len() ==> cell_is_null(#[trigger] sample[i], j),
    decreases sample.len(),
{
    if sample.len() > 0 {
        let rest = sample.drop_last();
        let last = sample.len() - 1;
        column_type_is_widest_value(rest, j);
        assert forall|i: int|
            0 <= i < sample.len() && !cell_is_null(#[trigger] sample[i], j) implies candidate_le(
            Some(spec_classify(sample[i][j])),
            column_candidate(sample, j),
        ) by {
            if i < last {
                assert(rest[i] == sample[i]);
            }
        }
        if let Some(t) = column_candidate(sample, j) {
            if !cell_is_null(sample[last], j) && spec_classify(sample[last][j]) == t {
                assert(0 <= last < sample.len() && !cell_is_null(sample[last], j));
            } else {
                let i = choose|i: int|
                    0 <= i < rest.len() && !cell_is_null(#[trigger] rest[i], j) && spec_classify(
                        rest[i][j],
                    ) == t;
                assert(rest[i] == sample[i]);
            }
        } else {
            assert forall|i: int| 0 <= i < sample.len() implies cell_is_null(
                #[trigger] sample[i],
                j,
            ) by {
                if i < last {
                    assert(rest[i] == sample[i]);
                }
            }
        }
    }
}

} // verus!
