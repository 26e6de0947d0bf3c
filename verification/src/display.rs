//! The texts that a schema is shown with: a label per column, counts in
//! decimal, and the heading that names the origin of the data.

use vstd::prelude::*;
use vstd::string::*;
use crate::classify::{all_digits, digit_value, digits_value, is_digit, is_number};
use crate::schema::{Column, ColumnView, Schema};

verus! {

/// The character of a decimal digit.
pub open spec fn digit_char(d: nat) -> char {
    seq!['0', '1', '2', '3', '4', '5', '6', '7', '8', '9'][d as int]
}

/// A number in decimal, without leading zeros.
pub open spec fn spec_decimal(n: nat) -> Seq<char>
    decreases n,
{
    if n < 10 {
        seq![digit_char(n)]
    } else {
        spec_decimal(n / 10).push(digit_char(n % 10))
    }
}

/// The heading above the table: where the data came from and how many
/// rows it has.
pub open spec fn spec_heading(origin: Seq<char>, row_count: nat) -> Seq<char> {
    "File Path: "@ + origin + "\nRecord Count: "@ + spec_decimal(row_count)
}

/// The cells shown for one column: its label and its null count.
pub open spec fn spec_record(column: ColumnView) -> Seq<Seq<char>> {
    seq![column.label(), spec_decimal(column.null_count)]
}

/// The cells shown for a schema: one record per column, in schema order.
pub open spec fn spec_records(schema: Seq<ColumnView>) -> Seq<Seq<Seq<char>>> {
    schema.map_values(|column: ColumnView| spec_record(column))
}

/// The decimal text of a number is a string of digits that denotes it.
pub proof fn decimal_denotes_number(n: nat)
    ensures
        is_number(spec_decimal(n)),
        digits_value(spec_decimal(n)) == n,
    decreases n,
{
    let text = spec_decimal(n);
    let last = digit_char(n % 10);
    assert(is_digit(last) && digit_value(last) == n % 10) by {
        let d = n % 10;
        assert(d == 0 || d == 1 || d == 2 || d == 3 || d == 4 || d == 5 || d == 6 || d == 7 || d
            == 8 || d == 9);
    }
    if n < 10 {
        assert(text.drop_last() =~= Seq::<char>::empty());
        assert(digits_value(text.drop_last()) == 0);
    } else {
        decimal_denotes_number(n / 10);
        let front = spec_decimal(n / 10);
        assert(text.drop_last() =~= front);
        assert forall|i: int| 0 <= i < text.len() implies is_digit(#[trigger] text[i]) by {
            if i < front.len() {
                assert(is_digit(front[i]));
            }
        }
    }
}

/// The text of one decimal digit.
fn digit_text(d: usize) -> (out: &'static str)
    requires
        d < 10,
    ensures
        out@ == seq![digit_char(d as nat)],
{
    proof {
        reveal_strlit("0");
        reveal_strlit("1");
        reveal_strlit("2");
        reveal_strlit("3");
        reveal_strlit("4");
        reveal_strlit("5");
        reveal_strlit("6");
        reveal_strlit("7");
        reveal_strlit("8");
        reveal_strlit("9");
    }
    let out = match d {
        0 => "0",
        1 => "1",
        2 => "2",
        3 => "3",
        4 => "4",
        5 => "5",
        6 => "6",
        7 => "7",
        8 => "8",
        _ => "9",
    };
    assert(out@ =~= seq![digit_char(d as nat)]);
    out
}

/// Writes a number in decimal.
pub fn decimal_text(n: usize) -> (out: String)
    ensures
        out@ == spec_decimal(n as nat),
    decreases n,
{
    if n < 10 {
        String::from_str(digit_text(n))
    } else {
        let mut out = decimal_text(n / 10);
        out.append(digit_text(n % 10));
        assert(out@ =~= spec_decimal(n as nat));
        out
    }
}

impl Column {
    /// The text shown for the column: its name, then its type in angle
    /// brackets.
    pub fn label(&self) -> (out: String)
        ensures
            out@ == self@.label(),
    {
        proof {
            reveal_strlit("<");
            reveal_strlit(">");
        }
        let mut out = self.name.clone();
        out.append("<");
        out.append(self.inferred.name());
        out.append(">");
        assert(out@ =~= self@.label());
        out
    }
}

/// The heading above the table.
pub fn heading(origin: &str, row_count: usize) -> (out: String)
    ensures
        out@ == spec_heading(origin@, row_count as nat),
{
    let mut out = String::from_str("File Path: ");
    out.append(origin);
    out.append("\nRecord Count: ");
    let count = decimal_text(row_count);
    out.append(count.as_str());
    out
}

/// The cells shown for a schema: per column its label and its null count,
/// in schema order.
pub fn records(schema: &Schema) -> (out: Vec<Vec<String>>)
    ensures
        out.deep_view() == spec_records(schema@),
        out@.len() == schema@.len() > 0,
        forall|k: int| 0 <= k < out@.len() ==> (#[trigger] out@[k])@.len() == 2,
{
    let mut out: Vec<Vec<String>> = Vec::new();
    let n = schema.len();
    let mut i: usize = 0;
    while i < n
        invariant
            i <= n == schema@.len(),
            out@.len() == i,
            forall|k: int| 0 <= k < i ==> (#[trigger] out@[k]).deep_view() == spec_record(schema@[k]),
            forall|k: int| 0 <= k < i ==> (#[trigger] out@[k])@.len() == 2,
        decreases n - i,
    {
        match schema.column(i) {
            Some(column) => {
                let mut record: Vec<String> = Vec::new();
                record.push(column.label());
                record.push(decimal_text(column.null_count));
                assert(record.deep_view() =~= spec_record(schema@[i as int]));
                out.push(record);
            },
            None => {},
        }
        i += 1;
    }
    assert(out.deep_view() =~= spec_records(schema@));
    out
}

} // verus!
