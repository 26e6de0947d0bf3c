//! A whole run on data already in memory: decode, infer, draw.

use vstd::prelude::*;
use crate::config::Config;
use crate::error::ErrorKind;
use crate::infer::{infer, spec_infer, Row};
use crate::render::{render, spec_render};
use crate::source::{read_table, spec_read, MAX_INPUT};

verus! {

/// What is shown for the data rows `rows` under the header `names`: the
/// table of the schema inferred from them, with the number of all rows in
/// its heading, or the failure of inference.
pub open spec fn spec_report(names: Row, rows: Seq<Row>, origin: Seq<char>, sample_size: nat) -> Result<
    Seq<char>,
    ErrorKind,
> {
    match spec_infer(rows, names, sample_size) {
        Ok(schema) => Ok(spec_render(schema, origin, rows.len())),
        Err(e) => Err(e),
    }
}

/// `out` is what a run returns on `contents`: the table by its text, or
/// the failure. Of a `MalformedRecord` only the kind is fixed.
pub open spec fn is_run_result(
    out: Result<String, ErrorKind>,
    path: String,
    sample_size: nat,
    contents: Seq<u8>,
) -> bool {
    if contents.len() > MAX_INPUT {
        out == Err::<String, ErrorKind>(ErrorKind::IOError { path })
    } else {
        match spec_read(contents) {
            None => out is Err && out->Err_0 is MalformedRecord,
            Some((names, rows)) => match out {
                Ok(text) => spec_report(names, rows, path@, sample_size) == Ok::<
                    Seq<char>,
                    ErrorKind,
                >(text@),
                Err(e) => spec_report(names, rows, path@, sample_size) == Err::<
                    Seq<char>,
                    ErrorKind,
                >(e),
            },
        }
    }
}

/// Infers the schema of what a record source yielded and draws its table.
///
/// Fails with `EmptyInput` exactly when the header is empty.
pub fn report(names: &Vec<String>, rows: &Vec<Vec<String>>, origin: &str, sample_size: usize) -> (out:
    Result<String, ErrorKind>)
    ensures
        out is Err <==> names@.len() == 0,
        match out {
            Ok(text) => spec_report(
                names.deep_view(),
                rows.deep_view(),
                origin@,
                sample_size as nat,
            ) == Ok::<Seq<char>, ErrorKind>(text@),
            Err(e) => spec_report(names.deep_view(), rows.deep_view(), origin@, sample_size as nat)
                == Err::<Seq<char>, ErrorKind>(e),
        },
{
    match infer(rows, names, sample_size) {
        Ok(schema) => Ok(render(&schema, origin, rows.len())),
        Err(e) => Err(e),
    }
}

/// Runs on the contents of the file that `config` names: decodes them,
/// infers the schema from the first `config.sample_size` rows and draws
/// the table.
///
/// Fails with `IOError` on contents longer than the reader can address,
/// with `MalformedRecord` where the reader fails on them, and with
/// `EmptyInput` where they hold no header.
pub fn run(config: &Config, contents: &[u8]) -> (out: Result<String, ErrorKind>)
    ensures
        is_run_result(out, config.path, config.sample_size as nat, contents@),
        out is Ok <==> contents@.len() <= MAX_INPUT && spec_read(contents@) is Some && spec_read(
            contents@,
        )->Some_0.0.len() > 0,
{
    if contents.len() > MAX_INPUT {
        return Err(ErrorKind::IOError { path: config.path.clone() });
    }
    match read_table(contents) {
        Ok(table) => report(&table.names, &table.rows, config.path.as_str(), config.sample_size),
        Err(e) => Err(e),
    }
}

} // verus!
