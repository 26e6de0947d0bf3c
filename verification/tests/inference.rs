use csv_schema::error::ErrorKind;
use csv_schema::infer::infer;
use csv_schema::lattice::ColumnType;
use csv_schema::schema::Column;

fn row(fields: &[&str]) -> Vec<String> {
    fields.iter().map(|f| f.to_string()).collect()
}

fn column(name: &str, inferred: ColumnType, null_count: usize) -> Column {
    Column { name: name.to_string(), inferred, null_count }
}

fn columns_of(rows: &Vec<Vec<String>>, names: &Vec<String>, sample_size: usize) -> Vec<Column> {
    let schema = infer(rows, names, sample_size).unwrap();
    (0..schema.len()).map(|i| schema.column(i).unwrap().clone()).collect()
}

#[test]
fn integer_and_text_columns_with_one_null() {
    let names = row(&["id", "name"]);
    let rows = vec![row(&["1", "a"]), row(&["2", ""]), row(&["3", "c"])];
    assert_eq!(
        columns_of(&rows, &names, 500),
        vec![column("id", ColumnType::Integer, 0), column("name", ColumnType::Text, 1)]
    );
}

#[test]
fn boolean_widens_to_integer() {
    let names = row(&["flag"]);
    let rows = vec![row(&["true"]), row(&["false"]), row(&["1"])];
    assert_eq!(columns_of(&rows, &names, 500), vec![column("flag", ColumnType::Integer, 0)]);
}

#[test]
fn header_only_gives_text_without_nulls() {
    let names = row(&["a", "b"]);
    let rows: Vec<Vec<String>> = Vec::new();
    assert_eq!(
        columns_of(&rows, &names, 500),
        vec![column("a", ColumnType::Text, 0), column("b", ColumnType::Text, 0)]
    );
}

#[test]
fn nothing_at_all_is_empty_input() {
    let names: Vec<String> = Vec::new();
    let rows: Vec<Vec<String>> = Vec::new();
    assert!(matches!(infer(&rows, &names, 500), Err(ErrorKind::EmptyInput)));
}

#[test]
fn rows_without_header_are_empty_input() {
    let names: Vec<String> = Vec::new();
    let rows = vec![row(&["1", "2"])];
    assert!(matches!(infer(&rows, &names, 500), Err(ErrorKind::EmptyInput)));
}

#[test]
fn rows_beyond_the_sample_are_not_counted() {
    let names = row(&["x", "y"]);
    let rows = vec![
        row(&["1", "a"]),
        row(&["2", "b"]),
        row(&["3", "c"]),
        row(&["", "d"]),
        row(&["5", "e"]),
    ];
    assert_eq!(
        columns_of(&rows, &names, 2),
        vec![column("x", ColumnType::Integer, 0), column("y", ColumnType::Text, 0)]
    );
    assert_eq!(
        columns_of(&rows, &names, 3),
        vec![column("x", ColumnType::Integer, 0), column("y", ColumnType::Text, 0)]
    );
    assert_eq!(
        columns_of(&rows, &names, 4),
        vec![column("x", ColumnType::Integer, 1), column("y", ColumnType::Text, 0)]
    );
}

#[test]
fn rows_beyond_the_sample_do_not_widen() {
    let names = row(&["x"]);
    let rows = vec![row(&["1"]), row(&["2"]), row(&["2.5"]), row(&["word"])];
    assert_eq!(columns_of(&rows, &names, 2), vec![column("x", ColumnType::Integer, 0)]);
    assert_eq!(columns_of(&rows, &names, 3), vec![column("x", ColumnType::Float, 0)]);
    assert_eq!(columns_of(&rows, &names, 4), vec![column("x", ColumnType::Text, 0)]);
    assert_eq!(columns_of(&rows, &names, 400), vec![column("x", ColumnType::Text, 0)]);
}

#[test]
fn sample_of_zero_rows_looks_at_nothing() {
    let names = row(&["x"]);
    let rows = vec![row(&["1"]), row(&[""])];
    assert_eq!(columns_of(&rows, &names, 0), vec![column("x", ColumnType::Text, 0)]);
}

#[test]
fn null_counts_stay_within_the_sample() {
    let names = row(&["a", "b", "c"]);
    let rows: Vec<Vec<String>> =
        (0..40).map(|i| row(&["", if i % 2 == 0 { "" } else { "1" }, "x"])).collect();
    for sample_size in [0usize, 1, 7, 39, 40, 41, 500] {
        let sampled = sample_size.min(rows.len());
        let columns = columns_of(&rows, &names, sample_size);
        for column in &columns {
            assert!(column.null_count <= sampled);
        }
        assert_eq!(columns[0].null_count, sampled);
        assert_eq!(columns[1].null_count, (sampled + 1) / 2);
        assert_eq!(columns[2].null_count, 0);
    }
}

#[test]
fn null_only_column_is_text_with_all_rows_null() {
    let names = row(&["id", "gap"]);
    let rows = vec![row(&["1", ""]), row(&["2", ""]), row(&["3", ""]), row(&["4", ""])];
    assert_eq!(
        columns_of(&rows, &names, 500),
        vec![column("id", ColumnType::Integer, 0), column("gap", ColumnType::Text, 4)]
    );
    assert_eq!(
        columns_of(&rows, &names, 3),
        vec![column("id", ColumnType::Integer, 0), column("gap", ColumnType::Text, 3)]
    );
}

#[test]
fn nulls_do_not_change_the_type() {
    let names = row(&["n"]);
    let rows = vec![row(&[""]), row(&["1"]), row(&[""]), row(&["2.5"]), row(&[""])];
    assert_eq!(columns_of(&rows, &names, 500), vec![column("n", ColumnType::Float, 3)]);
}

#[test]
fn missing_fields_are_null_and_extra_fields_are_ignored() {
    let names = row(&["a", "b"]);
    let rows = vec![row(&["1"]), row(&["2", "x", "extra"]), row(&[])];
    assert_eq!(
        columns_of(&rows, &names, 500),
        vec![column("a", ColumnType::Integer, 1), column("b", ColumnType::Text, 2)]
    );
}

#[test]
fn columns_come_in_header_order() {
    let names = row(&["c", "a", "b"]);
    let rows = vec![row(&["1", "x", "true"])];
    let columns = columns_of(&rows, &names, 500);
    let found: Vec<&str> = columns.iter().map(|c| c.name.as_str()).collect();
    assert_eq!(found, vec!["c", "a", "b"]);
}

#[test]
fn reordering_columns_reorders_the_schema() {
    let names = row(&["id", "name", "score", "gap"]);
    let rows = vec![
        row(&["1", "a", "1.5", ""]),
        row(&["2", "", "2", ""]),
        row(&["true", "c", "", ""]),
    ];
    let straight = columns_of(&rows, &names, 500);
    let order = [2usize, 0, 3, 1];
    let moved_names: Vec<String> = order.iter().map(|&k| names[k].clone()).collect();
    let moved_rows: Vec<Vec<String>> =
        rows.iter().map(|r| order.iter().map(|&k| r[k].clone()).collect()).collect();
    let moved = columns_of(&moved_rows, &moved_names, 500);
    let expected: Vec<Column> = order.iter().map(|&k| straight[k].clone()).collect();
    assert_eq!(moved, expected);
    assert_eq!(
        straight,
        vec![
            column("id", ColumnType::Integer, 0),
            column("name", ColumnType::Text, 1),
            column("score", ColumnType::Float, 1),
            column("gap", ColumnType::Text, 3),
        ]
    );
}

#[test]
fn inference_twice_gives_the_same_schema() {
    let names = row(&["id", "name"]);
    let rows = vec![row(&["1", "a"]), row(&["2", ""]), row(&["3.5", "c"])];
    assert_eq!(infer(&rows, &names, 2), infer(&rows, &names, 2));
    assert_eq!(columns_of(&rows, &names, 500), columns_of(&rows, &names, 500));
}

#[test]
fn one_more_value_never_narrows() {
    let names = row(&["x"]);
    let rank = |t: ColumnType| match t {
        ColumnType::Boolean => 0,
        ColumnType::Integer => 1,
        ColumnType::Float => 2,
        ColumnType::Text => 3,
    };
    let values = ["true", "1", "false", "2.5", "7", "word", "3", "true"];
    let rows: Vec<Vec<String>> = values.iter().map(|v| row(&[v])).collect();
    let mut last = 0;
    for n in 1..=rows.len() {
        let now = rank(columns_of(&rows, &names, n)[0].inferred);
        assert!(now >= last);
        last = now;
    }
    assert_eq!(last, 3);
}

#[test]
fn text_after_numbers_gives_text_and_integer_after_float_gives_float() {
    let names = row(&["x"]);
    let rows = vec![row(&["1"]), row(&["word"])];
    assert_eq!(columns_of(&rows, &names, 500)[0].inferred, ColumnType::Text);
    let rows = vec![row(&["1.5"]), row(&["word"])];
    assert_eq!(columns_of(&rows, &names, 500)[0].inferred, ColumnType::Text);
    let rows = vec![row(&["1.5"]), row(&["2"])];
    assert_eq!(columns_of(&rows, &names, 500)[0].inferred, ColumnType::Float);
    let rows = vec![row(&["2"]), row(&["true"])];
    assert_eq!(columns_of(&rows, &names, 500)[0].inferred, ColumnType::Integer);
}
