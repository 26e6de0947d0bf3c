//! The result of inference: one column per header field, in header order.

use vstd::prelude::*;
use crate::lattice::ColumnType;

verus! {

/// One column of a schema.
#[derive(Clone, Debug, PartialEq, Eq)]
pub struct Column {
    pub name: String,
    pub inferred: ColumnType,
    pub null_count: usize,
}

/// What a column holds, as mathematical values.
pub struct ColumnView {
    pub name: Seq<char>,
    pub inferred: ColumnType,
    pub null_count: nat,
}

impl View for Column {
    type V = ColumnView;

    open spec fn view(&self) -> ColumnView {
        ColumnView { name: self.name@, inferred: self.inferred, null_count: self.null_count as nat }
    }
}

impl ColumnView {
    /// The text shown for the column: its name, then its type in angle
    /// brackets.
    pub open spec fn label(self) -> Seq<char> {
        self.name + seq!['<'] + self.inferred.spec_name() + seq!['>']
    }
}

/// An ordered sequence of columns, at least one, that is not changed once
/// built.
#[derive(Debug, PartialEq, Eq)]
pub struct Schema {
    columns: Vec<Column>,
}

impl View for Schema {
    type V = Seq<ColumnView>;

    closed spec fn view(&self) -> Seq<ColumnView> {
        self.columns@.map_values(|c: Column| c@)
    }
}

impl Schema {
    #[verifier::type_invariant]
    spec fn has_columns(self) -> bool {
        self.columns@.len() > 0
    }

    /// A schema of the given columns, in their order; none without a
    /// column.
    pub fn new(columns: Vec<Column>) -> (out: Option<Schema>)
        ensures
            out is None <==> columns@.len() == 0,
            out matches Some(schema) ==> schema@ == columns@.map_values(|c: Column| c@),
    {
        if columns.len() == 0 {
            None
        } else {
            Some(Schema::of(columns))
        }
    }

    /// A schema of the given columns, of which there is at least one.
    pub(crate) fn of(columns: Vec<Column>) -> (out: Schema)
        requires
            columns@.len() > 0,
        ensures
            out@ == columns@.map_values(|c: Column| c@),
    {
        Schema { columns }
    }

    /// The number of columns, which is not zero.
    pub fn len(&self) -> (out: usize)
        ensures
            out == self@.len(),
            out > 0,
    {
        proof {
            use_type_invariant(self);
        }
        self.columns.len()
    }

    /// The column at position `index`, counted in header order from zero.
    pub fn column(&self, index: usize) -> (out: Option<&Column>)
        ensures
            index < self@.len() ==> out is Some && out.unwrap()@ == self@[index as int],
            index >= self@.len() ==> out is None,
    {
        if index < self.columns.len() {
            Some(&self.columns[index])
        } else {
            None
        }
    }
}

} // verus!
