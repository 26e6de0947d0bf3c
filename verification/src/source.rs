//! The record source: delimited text decoded by the `arrow` crate into a
//! header and rows of raw field values.
//!
//! Every column is read as text, so that a field arrives as it was written.
//! The reader hands out an empty field as a null cell; a null cell becomes
//! an empty field again here.

use vstd::prelude::*;
use crate::error::ErrorKind;
use crate::infer::Row;

verus! {

/// A batch of decoded rows as the reader returns it, an
/// `arrow::record_batch::RecordBatch`. What it holds is known only through
/// `batch_columns`.
#[verifier::external_body]
pub struct Batch {
    inner: arrow::record_batch::RecordBatch,
}

/// The reader's error type, carried through as it is.
#[verifier::external_type_specification]
#[verifier::external_body]
pub struct ExArrowError(arrow::error::ArrowError);

/// The cells of one batch, column by column: `None` is a null cell.
pub type Cells = Seq<Seq<Option<Seq<char>>>>;

/// The longest input that is decoded: the reader addresses the text of a
/// batch with 32 signed bits.
pub const MAX_INPUT: usize = 0x7fff_ffff;

/// The cells of a batch whose columns are all of the type `Utf8`, column
/// by column; no column at all for a batch with a column of another type.
pub uninterp spec fn batch_columns(batch: Batch) -> Cells;

/// The fields of the header row of comma-delimited text as the reader
/// finds them, or `None` where it fails on the text.
pub uninterp spec fn csv_header(bytes: Seq<u8>) -> Option<Row>;

/// The cells of the batches that the reader decodes from the data rows of
/// comma-delimited text with one text column per name in `names`, or
/// `None` where it fails on the text.
pub uninterp spec fn csv_batches(bytes: Seq<u8>, names: Row) -> Option<Seq<Cells>>;

/// The text of a cell: a null cell is an empty field.
pub open spec fn cell_text(cell: Option<Seq<char>>) -> Seq<char> {
    match cell {
        Some(text) => text,
        None => Seq::empty(),
    }
}

/// The number of rows of a batch: the length of its first column.
pub open spec fn height(columns: Cells) -> nat {
    if columns.len() == 0 {
        0
    } else {
        columns[0].len()
    }
}

/// All columns of a batch have the same length.
pub open spec fn is_rectangular(columns: Cells) -> bool {
    forall|j: int| 0 <= j < columns.len() ==> (#[trigger] columns[j]).len() == height(columns)
}

/// Row `i` of a batch: the text of cell `i` of every column.
pub open spec fn batch_row(columns: Cells, i: int) -> Row {
    Seq::new(columns.len(), |j: int| cell_text(columns[j][i]))
}

/// The rows of a batch, in order.
pub open spec fn batch_rows(columns: Cells) -> Seq<Row> {
    Seq::new(height(columns), |i: int| batch_row(columns, i))
}

/// The rows of all batches, in order.
pub open spec fn all_rows(batches: Seq<Cells>) -> Seq<Row>
    decreases batches.len(),
{
    if batches.len() == 0 {
        Seq::empty()
    } else {
        all_rows(batches.drop_last()) + batch_rows(batches.last())
    }
}

/// Reads the header row with `arrow::csv::reader::Format::infer_schema`,
/// on a format with a header and `,` as delimiter and with no data row to
/// look at, and takes the name of each field of the schema it returns. The
/// names depend on the text alone and are called `csv_header`; empty text
/// has an empty header.
#[verifier::external_body]
fn read_header(bytes: &[u8]) -> (out: Result<Vec<String>, arrow::error::ArrowError>)
    ensures
        match out {
            Ok(names) => csv_header(bytes@) == Some(names.deep_view()),
            Err(_) => csv_header(bytes@) is None,
        },
{
    let format = arrow::csv::reader::Format::default().with_header(true).with_delimiter(b',');
    let (schema, _) = format.infer_schema(bytes, Some(0))?;
    Ok(schema.fields().iter().map(|field| field.name().clone()).collect())
}

/// Decodes the data rows with `arrow::csv::ReaderBuilder`: a schema of one
/// nullable `Utf8` field per name, a header row to skip, `,` as delimiter,
/// and the batches collected from the reader that `build` returns until
/// the first failure. The reader fails on a row whose number of fields is
/// not that of the schema, and on text that is not UTF-8. Every batch it
/// returns has one `Utf8` column per field of the schema. The decoder
/// divides by the number of fields, so the schema may not be empty; and a
/// column addresses its text with 32 signed bits, so the input may not be
/// longer than that.
#[verifier::external_body]
fn read_batches(bytes: &[u8], names: &Vec<String>) -> (out: Result<
    Vec<Batch>,
    arrow::error::ArrowError,
>)
    requires
        names@.len() > 0,
        bytes@.len() <= MAX_INPUT,
    ensures
        match out {
            Ok(batches) => {
                &&& csv_batches(bytes@, names.deep_view()) == Some(
                    batches@.map_values(|batch: Batch| batch_columns(batch)),
                )
                &&& forall|k: int|
                    0 <= k < batches@.len() ==> batch_columns(#[trigger] batches@[k]).len()
                        == names@.len()
            },
            Err(_) => csv_batches(bytes@, names.deep_view()) is None,
        },
{
    let fields: Vec<arrow::datatypes::Field> = names.iter().map(
        |name| arrow::datatypes::Field::new(name, arrow::datatypes::DataType::Utf8, true),
    ).collect();
    let schema = std::sync::Arc::new(arrow::datatypes::Schema::new(fields));
    let builder = arrow::csv::ReaderBuilder::new(schema).with_header(true).with_delimiter(b',');
    builder.build(bytes)?.map(|batch| batch.map(|inner| Batch { inner })).collect()
}

/// The number of rows of a batch, from `RecordBatch::num_rows`: every
/// column of the batch has that many cells.
#[verifier::external_body]
fn batch_height(batch: &Batch) -> (out: usize)
    ensures
        forall|j: int|
            0 <= j < batch_columns(*batch).len() ==> (#[trigger] batch_columns(*batch)[j]).len()
                == out,
{
    batch.inner.num_rows()
}

/// One cell of a `Utf8` column, from `RecordBatch::column`,
/// `AsArray::as_string`, `Array::is_valid` and `GenericByteArray::value`:
/// its text, or `None` for a null cell.
#[verifier::external_body]
fn batch_cell(batch: &Batch, column: usize, row: usize) -> (out: Option<String>)
    requires
        column < batch_columns(*batch).len(),
        row < batch_columns(*batch)[column as int].len(),
    ensures
        match out {
            Some(text) => batch_columns(*batch)[column as int][row as int] == Some(text@),
            None => batch_columns(*batch)[column as int][row as int] is None,
        },
{
    let cells = arrow::array::AsArray::as_string::<i32>(batch.inner.column(column));
    arrow::array::Array::is_valid(cells, row).then_some(cells.value(row).to_string())
}

/// The reader's account of a failure, from the `Display` of `ArrowError`.
#[verifier::external_body]
fn failure_text(error: &arrow::error::ArrowError) -> (out: String) {
    error.to_string()
}

/// What a record source yields: the header and the data rows.
#[derive(Clone, Debug, PartialEq, Eq)]
pub struct Table {
    pub names: Vec<String>,
    pub rows: Vec<Vec<String>>,
}

/// What decoding `bytes` yields: the header and the data rows, or `None`
/// where the reader fails. Text without a header has no data rows.
pub open spec fn spec_read(bytes: Seq<u8>) -> Option<(Row, Seq<Row>)> {
    match csv_header(bytes) {
        None => None,
        Some(names) => if names.len() == 0 {
            Some((names, Seq::empty()))
        } else {
            match csv_batches(bytes, names) {
                None => None,
                Some(batches) => Some((names, all_rows(batches))),
            }
        },
    }
}

/// Appends the rows of one batch of `width` columns to `rows`.
fn append_rows(rows: &mut Vec<Vec<String>>, batch: &Batch, width: usize)
    requires
        width == batch_columns(*batch).len(),
    ensures
        final(rows).deep_view() == old(rows).deep_view() + batch_rows(batch_columns(*batch)),
        forall|i: int|
            old(rows)@.len() <= i < final(rows)@.len() ==> (#[trigger] final(rows)@[i])@.len()
                == batch_columns(*batch).len(),
        forall|i: int| 0 <= i < old(rows)@.len() ==> final(rows)@[i] == old(rows)@[i],
        final(rows)@.len() >= old(rows)@.len(),
{
    let ghost columns = batch_columns(*batch);
    let ghost before = rows.deep_view();
    let ghost kept = rows@;
    if width == 0 {
        assert(rows.deep_view() + batch_rows(columns) =~= rows.deep_view());
        return ;
    }
    let count = batch_height(batch);
    assert(count == height(columns)) by {
        assert(columns[0].len() == count);
    }
    let mut i: usize = 0;
    while i < count
        invariant
            i <= count == height(columns),
            columns == batch_columns(*batch),
            width == columns.len(),
            width > 0,
            forall|j: int| 0 <= j < columns.len() ==> (#[trigger] columns[j]).len() == count,
            rows@.len() == kept.len() + i,
            rows.deep_view() =~= before + batch_rows(columns).take(i as int),
            forall|k: int| kept.len() <= k < rows@.len() ==> (#[trigger] rows@[k])@.len() == width,
            forall|k: int| 0 <= k < kept.len() ==> rows@[k] == kept[k],
        decreases count - i,
    {
        let mut fields: Vec<String> = Vec::new();
        let mut j: usize = 0;
        while j < width
            invariant
                i < count,
                j <= width == columns.len(),
                columns == batch_columns(*batch),
                forall|j: int| 0 <= j < columns.len() ==> (#[trigger] columns[j]).len() == count,
                fields@.len() == j,
                forall|k: int|
                    0 <= k < j ==> (#[trigger] fields@[k])@ == cell_text(columns[k][i as int]),
            decreases width - j,
        {
            assert(columns[j as int].len() == count);
            let field = match batch_cell(batch, j, i) {
                Some(text) => text,
                None => String::new(),
            };
            fields.push(field);
            j += 1;
        }
        assert(fields.deep_view() =~= batch_row(columns, i as int));
        let ghost grown = rows.deep_view();
        rows.push(fields);
        assert(rows.deep_view() =~= grown.push(batch_row(columns, i as int)));
        assert(batch_rows(columns).take(i + 1) =~= batch_rows(columns).take(i as int).push(
            batch_row(columns, i as int),
        ));
        i += 1;
    }
    assert(batch_rows(columns).take(count as int) =~= batch_rows(columns));
}

/// Decodes comma-delimited text with a header row into the header and
/// the data rows, every row with one field per header field.
///
/// Fails with `MalformedRecord` exactly where the reader fails: on a row
/// that has more or fewer fields than the header, and on text that is not
/// UTF-8. Text without a header has no data rows.
pub fn read_table(bytes: &[u8]) -> (out: Result<Table, ErrorKind>)
    requires
        bytes@.len() <= MAX_INPUT,
    ensures
        match out {
            Ok(table) => {
                &&& spec_read(bytes@) == Some((table.names.deep_view(), table.rows.deep_view()))
                &&& forall|i: int|
                    0 <= i < table.rows@.len() ==> (#[trigger] table.rows@[i])@.len()
                        == table.names@.len()
            },
            Err(e) => spec_read(bytes@) is None && e is MalformedRecord,
        },
{
    let names = match read_header(bytes) {
        Ok(names) => names,
        Err(error) => {
            return Err(ErrorKind::MalformedRecord { detail: failure_text(&error) });
        },
    };
    let mut rows: Vec<Vec<String>> = Vec::new();
    assert(rows.deep_view() =~= Seq::<Row>::empty());
    if names.len() == 0 {
        return Ok(Table { names, rows });
    }
    let batches = match read_batches(bytes, &names) {
        Ok(batches) => batches,
        Err(error) => {
            return Err(ErrorKind::MalformedRecord { detail: failure_text(&error) });
        },
    };
    let ghost cells = batches@.map_values(|batch: Batch| batch_columns(batch));
    let mut k: usize = 0;
    assert(cells.take(0) =~= Seq::<Cells>::empty());
    while k < batches.len()
        invariant
            k <= batches@.len(),
            cells == batches@.map_values(|batch: Batch| batch_columns(batch)),
            forall|k: int|
                0 <= k < batches@.len() ==> batch_columns(#[trigger] batches@[k]).len()
                    == names@.len(),
            rows.deep_view() == all_rows(cells.take(k as int)),
            forall|i: int| 0 <= i < rows@.len() ==> (#[trigger] rows@[i])@.len() == names@.len(),
        decreases batches@.len() - k,
    {
        assert(cells.take(k + 1).drop_last() =~= cells.take(k as int));
        assert(cells.take(k + 1).last() == batch_columns(batches@[k as int]));
        append_rows(&mut rows, &batches[k], names.len());
        k += 1;
    }
    assert(cells.take(k as int) =~= cells);
    Ok(Table { names, rows })
}

} // verus!
