use vstd::prelude::*;

verus! {

/// A wire-representable argument of a remote call: the small set of value
/// kinds this client ever sends (strings for property and track names,
/// signed integers for positions and offsets in microseconds, unsigned
/// integers and booleans for plain properties).
#[derive(Clone, Debug, PartialEq, Eq)]
pub enum ArgValue {
    Str(String),
    Int64(i64),
    UInt64(u64),
    Boolean(bool),
}

/// The mathematical image of an [`ArgValue`]: strings as character
/// sequences, machine integers as unbounded integers.
pub enum ArgSpec {
    Str(Seq<char>),
    Int64(int),
    UInt64(int),
    Boolean(bool),
}

impl View for ArgValue {
    type V = ArgSpec;

    open spec fn view(&self) -> ArgSpec {
        match self {
            ArgValue::Str(s) => ArgSpec::Str(s@),
            ArgValue::Int64(i) => ArgSpec::Int64(*i as int),
            ArgValue::UInt64(u) => ArgSpec::UInt64(*u as int),
            ArgValue::Boolean(b) => ArgSpec::Boolean(*b),
        }
    }
}

} // verus!
