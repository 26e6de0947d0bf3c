use csv_schema::config::Config;
use csv_schema::error::ErrorKind;
use csv_schema::report::run;
use csv_schema::source::{read_table, Table};

fn row(fields: &[&str]) -> Vec<String> {
    fields.iter().map(|f| f.to_string()).collect()
}

#[test]
fn header_and_rows_are_decoded() {
    let table = read_table(b"id,name\n1,a\n2,\n3,\"c,d\"\n").unwrap();
    assert_eq!(
        table,
        Table {
            names: row(&["id", "name"]),
            rows: vec![row(&["1", "a"]), row(&["2", ""]), row(&["3", "c,d"])],
        }
    );
}

#[test]
fn fields_arrive_as_written() {
    let table = read_table(b"a,b,c\r\n007,TRUE, 1 \r\n\"x \"\"y\"\"\",1e5,\xc3\xa9\r\n").unwrap();
    assert_eq!(
        table,
        Table {
            names: row(&["a", "b", "c"]),
            rows: vec![row(&["007", "TRUE", " 1 "]), row(&["x \"y\"", "1e5", "\u{e9}"])],
        }
    );
}

#[test]
fn header_without_rows_is_decoded() {
    let table = read_table(b"a,b\n").unwrap();
    assert_eq!(table, Table { names: row(&["a", "b"]), rows: Vec::new() });
    let table = read_table(b"a,b").unwrap();
    assert_eq!(table, Table { names: row(&["a", "b"]), rows: Vec::new() });
}

#[test]
fn empty_contents_have_no_header() {
    let table = read_table(b"").unwrap();
    assert_eq!(table, Table { names: Vec::new(), rows: Vec::new() });
}

#[test]
fn rows_of_many_batches_stay_in_order() {
    let mut contents = String::from("n,square,gap\n");
    for n in 0..2500u64 {
        contents.push_str(&format!("{},{},\n", n, n * n));
    }
    let table = read_table(contents.as_bytes()).unwrap();
    assert_eq!(table.names, row(&["n", "square", "gap"]));
    assert_eq!(table.rows.len(), 2500);
    for (n, fields) in table.rows.iter().enumerate() {
        assert_eq!(fields, &vec![n.to_string(), (n * n).to_string(), String::new()]);
    }
}

#[test]
fn row_with_too_few_fields_is_malformed() {
    let failure = read_table(b"a,b\n1,2\n3\n").unwrap_err();
    assert!(matches!(failure, ErrorKind::MalformedRecord { .. }));
    assert!(failure.describe().starts_with("malformed record: "));
    assert!(failure.describe().len() > "malformed record: ".len());
}

#[test]
fn row_with_too_many_fields_is_malformed() {
    let failure = read_table(b"a,b\n1,2,3\n").unwrap_err();
    assert!(matches!(failure, ErrorKind::MalformedRecord { .. }));
}

#[test]
fn text_that_is_not_utf8_is_malformed() {
    let failure = read_table(b"a,b\n1,\xff\xfe\n").unwrap_err();
    assert!(matches!(failure, ErrorKind::MalformedRecord { .. }));
}

#[test]
fn run_decodes_infers_and_draws() {
    let config = Config::new("people.csv".to_string(), None);
    assert_eq!(
        run(&config, b"id,name\n1,a\n2,\n3,c\n").unwrap(),
        "╭────────────────┬──────╮\n\
         │ File Path: people.csv │\n\
         │ Record Count: 3       │\n\
         ├────────────────┼──────┤\n\
         │ id<Integer>    │ 0    │\n\
         │ name<Text>     │ 1    │\n\
         ╰────────────────┴──────╯"
    );
}

#[test]
fn run_on_header_only_shows_text_columns() {
    let config = Config::new("people.csv".to_string(), None);
    assert_eq!(
        run(&config, b"a,b\n").unwrap(),
        "╭──────────────┬────────╮\n\
         │ File Path: people.csv │\n\
         │ Record Count: 0       │\n\
         ├──────────────┼────────┤\n\
         │ a<Text>      │ 0      │\n\
         │ b<Text>      │ 0      │\n\
         ╰──────────────┴────────╯"
    );
}

#[test]
fn run_samples_a_prefix_and_counts_all_rows() {
    let config = Config::new("x.csv".to_string(), None).with_sample_size(2).unwrap();
    assert_eq!(
        run(&config, b"x,y\n1,a\n2,b\n3,c\n,d\n5,e\n").unwrap(),
        "╭─────────────┬────╮\n\
         │ File Path: x.csv │\n\
         │ Record Count: 5  │\n\
         ├─────────────┼────┤\n\
         │ x<Integer>  │ 0  │\n\
         │ y<Text>     │ 0  │\n\
         ╰─────────────┴────╯"
    );
}

#[test]
fn run_on_empty_contents_is_empty_input() {
    let config = Config::new("people.csv".to_string(), None);
    assert_eq!(run(&config, b""), Err(ErrorKind::EmptyInput));
}

#[test]
fn run_on_malformed_contents_is_malformed_record() {
    let config = Config::new("people.csv".to_string(), None);
    assert!(matches!(run(&config, b"a,b\n1\n"), Err(ErrorKind::MalformedRecord { .. })));
}

#[test]
fn run_twice_gives_the_same_table() {
    let config = Config::new("people.csv".to_string(), None);
    let contents = b"id,name\n1,a\n2,\n3.5,c\n";
    assert_eq!(run(&config, contents), run(&config, contents));
}
