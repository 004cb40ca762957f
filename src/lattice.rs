use vstd::prelude::*;

verus! {

/// The type inferred for a column.
///
/// `Integer` is the starting candidate and the bottom of the order; `Float`,
/// `Boolean` and `Date` are incomparable with one another; `Text` is the top.
#[derive(Clone, Copy, Debug, PartialEq, Eq, Structural)]
pub enum InferredType {
    Integer,
    Float,
    Boolean,
    Date,
    Text,
}

/// The widening order: `a` is at least as specific as `b`.
pub open spec fn type_le(a: InferredType, b: InferredType) -> bool {
    a == b || a == InferredType::Integer || b == InferredType::Text
}

/// The SQL name used for each inferred type. Text columns are bounded to
/// 255 characters.
pub open spec fn sql_type_name(t: InferredType) -> Seq<char> {
    match t {
        InferredType::Integer => "INT"@,
        InferredType::Float => "FLOAT"@,
        InferredType::Boolean => "BOOLEAN"@,
        InferredType::Date => "DATE"@,
        InferredType::Text => "VARCHAR(255)"@,
    }
}

impl InferredType {
    /// The SQL name of the type.
    pub fn sql_name(&self) -> (r: &'static str)
        ensures
            r@ == sql_type_name(*self),
    {
        match self {
            InferredType::Integer => "INT",
            InferredType::Float => "FLOAT",
            InferredType::Boolean => "BOOLEAN",
            InferredType::Date => "DATE",
            InferredType::Text => "VARCHAR(255)",
        }
    }

    /// Whether `self` is at least as specific as `other` in the widening order.
    pub fn is_at_most(&self, other: &InferredType) -> (r: bool)
        ensures
            r == type_le(*self, *other),
    {
        *self == *other || *self == InferredType::Integer || *other == InferredType::Text
    }
}

} // verus!
