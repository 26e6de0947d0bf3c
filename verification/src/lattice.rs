//! The type lattice `Boolean < Integer < Float < Text` and the running
//! candidate of a column, which starts out unset.

use vstd::prelude::*;

verus! {

/// The type inferred for a column or for a single value.
#[derive(Clone, Copy, Debug, PartialEq, Eq, Structural)]
pub enum ColumnType {
    Boolean,
    Integer,
    Float,
    Text,
}

/// The running candidate of a column: `None` until a non-null value is seen.
pub type Candidate = Option<ColumnType>;

impl ColumnType {
    /// Position in the widening order, from narrowest to widest.
    pub open spec fn rank(self) -> nat {
        match self {
            ColumnType::Boolean => 0,
            ColumnType::Integer => 1,
            ColumnType::Float => 2,
            ColumnType::Text => 3,
        }
    }

    /// `self` can be widened to `other`.
    pub open spec fn le(self, other: ColumnType) -> bool {
        self.rank() <= other.rank()
    }

    /// Least upper bound of two types in the widening order.
    pub open spec fn spec_widen(self, other: ColumnType) -> ColumnType {
        if self.rank() >= other.rank() {
            self
        } else {
            other
        }
    }

    /// The name under which the type is shown.
    pub open spec fn spec_name(self) -> Seq<char> {
        match self {
            ColumnType::Boolean => "Boolean"@,
            ColumnType::Integer => "Integer"@,
            ColumnType::Float => "Float"@,
            ColumnType::Text => "Text"@,
        }
    }

    /// Widens `self` just far enough to hold values of type `other` too.
    pub fn widen(self, other: ColumnType) -> (out: ColumnType)
        ensures
            out == self.spec_widen(other),
    {
        match (self, other) {
            (ColumnType::Text, _) | (_, ColumnType::Text) => ColumnType::Text,
            (ColumnType::Float, _) | (_, ColumnType::Float) => ColumnType::Float,
            (ColumnType::Integer, _) | (_, ColumnType::Integer) => ColumnType::Integer,
            (ColumnType::Boolean, ColumnType::Boolean) => ColumnType::Boolean,
        }
    }

    /// The name under which the type is shown.
    pub fn name(self) -> (out: &'static str)
        ensures
            out@ == self.spec_name(),
    {
        match self {
            ColumnType::Boolean => "Boolean",
            ColumnType::Integer => "Integer",
            ColumnType::Float => "Float",
            ColumnType::Text => "Text",
        }
    }
}

/// The candidate after one more non-null value of type `seen`.
pub open spec fn spec_observe(current: Candidate, seen: ColumnType) -> Candidate {
    match current {
        None => Some(seen),
        Some(t) => Some(t.spec_widen(seen)),
    }
}

/// The type a column ends up with: its candidate, or `Text` where no
/// non-null value was ever seen.
pub open spec fn spec_resolve(current: Candidate) -> ColumnType {
    match current {
        None => ColumnType::Text,
        Some(t) => t,
    }
}

/// `a` is at most `b`, the unset candidate lying below every type.
pub open spec fn candidate_le(a: Candidate, b: Candidate) -> bool {
    match (a, b) {
        (None, _) => true,
        (Some(_), None) => false,
        (Some(x), Some(y)) => x.le(y),
    }
}

/// Folds one more non-null value of type `seen` into a candidate.
pub fn observe(current: Candidate, seen: ColumnType) -> (out: Candidate)
    ensures
        out == spec_observe(current, seen),
{
    match current {
        None => Some(seen),
        Some(t) => Some(t.widen(seen)),
    }
}

/// Settles a candidate once sampling is over.
pub fn resolve(current: Candidate) -> (out: ColumnType)
    ensures
        out == spec_resolve(current),
{
    match current {
        None => ColumnType::Text,
        Some(t) => t,
    }
}

/// Widening yields an upper bound of both arguments, and the least one:
/// whatever bounds both also bounds the result.
pub proof fn widen_is_least_upper_bound(a: ColumnType, b: ColumnType, c: ColumnType)
    ensures
        a.le(a.spec_widen(b)),
        b.le(a.spec_widen(b)),
        a.le(c) && b.le(c) ==> a.spec_widen(b).le(c),
        a.spec_widen(b) == a || a.spec_widen(b) == b,
{
}

/// Widening is idempotent, commutative and associative, so the fold over a
/// column does not depend on the order of its values.
pub proof fn widen_is_semilattice(a: ColumnType, b: ColumnType, c: ColumnType)
    ensures
        a.spec_widen(a) == a,
        a.spec_widen(b) == b.spec_widen(a),
        a.spec_widen(b).spec_widen(c) == a.spec_widen(b.spec_widen(c)),
{
}

/// A `Text` value turns an `Integer` or `Float` column into `Text`; an
/// `Integer` value leaves a `Float` column `Float`; a `Boolean` value leaves
/// an `Integer` column `Integer`, and an `Integer` value widens a `Boolean`
/// column to `Integer`.
pub proof fn widen_table()
    ensures
        ColumnType::Integer.spec_widen(ColumnType::Text) == ColumnType::Text,
        ColumnType::Float.spec_widen(ColumnType::Text) == ColumnType::Text,
        ColumnType::Float.spec_widen(ColumnType::Integer) == ColumnType::Float,
        ColumnType::Integer.spec_widen(ColumnType::Float) == ColumnType::Float,
        ColumnType::Integer.spec_widen(ColumnType::Boolean) == ColumnType::Integer,
        ColumnType::Boolean.spec_widen(ColumnType::Integer) == ColumnType::Integer,
{
}

/// Observing a value never narrows a candidate, and the new candidate can
/// hold the value observed.
pub proof fn observe_never_narrows(current: Candidate, seen: ColumnType)
    ensures
        candidate_le(current, spec_observe(current, seen)),
        candidate_le(Some(seen), spec_observe(current, seen)),
        spec_observe(current, seen) is Some,
{
}

/// Once a column has a type, one more value never narrows it; a `Text`
/// value always makes it `Text`.
pub proof fn resolved_type_never_narrows(t: ColumnType, seen: ColumnType)
    ensures
        t.le(spec_resolve(spec_observe(Some(t), seen))),
        seen.le(spec_resolve(spec_observe(Some(t), seen))),
        spec_resolve(spec_observe(Some(t), ColumnType::Text)) == ColumnType::Text,
{
}

} // verus!
