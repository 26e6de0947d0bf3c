//! Column-wise schema inference for delimited tabular data.
//!
//! A bounded prefix of the data rows is sampled; every non-empty field is
//! classified, each column's type is the widening fold of its classes, and
//! empty or missing fields are tallied as nulls.
//!
//! - [`lattice`]: the types `Boolean < Integer < Float < Text` and widening.
//! - [`classify`]: the grammar that gives a field value its type.
//! - [`infer`]: sampling, the fold over each column, the null counts.
//! - [`laws`]: what holds of inference on every input.
//! - [`schema`]: the columns that inference returns.
//! - [`display`], [`render`]: the texts and the table a schema is shown as.
//! - [`source`]: the header and rows decoded from delimited text.
//! - [`report`]: a whole run on the contents of a file.
//! - [`config`], [`error`]: what a run is configured with, and how it fails.

pub mod classify;
pub mod config;
pub mod display;
pub mod error;
pub mod infer;
pub mod lattice;
pub mod laws;
pub mod render;
pub mod report;
pub mod schema;
pub mod source;
