//! The scalar values that the GraphQL types are made of, as plain data.
use vstd::prelude::*;

verus! {

/// An opaque object identifier, as it stands on the wire.
#[derive(Debug, Clone, Default, PartialEq, Eq, Hash)]
pub struct ID(pub String);

impl ID {
    /// The identifier's text.
    pub fn as_str(&self) -> (text: &str)
        ensures
            text@ == self.0@,
    {
        self.0.as_str()
    }

    /// The same identifier once more.
    pub fn copied(&self) -> (id: ID)
        ensures
            id == *self,
    {
        ID(self.0.clone())
    }
}

/// A position in a connection, as it stands on the wire.
#[derive(Debug, Clone, Default, PartialEq, Eq)]
pub struct CursorScalar(pub String);

/// An instant: seconds since the Unix epoch and the nanoseconds into that
/// second.
#[derive(Debug, Clone, Copy, Default, PartialEq, Eq)]
pub struct TimeScalar {
    pub seconds: i64,
    pub nanos: u32,
}

/// A decimal number: `mantissa` divided by ten to the power `scale`.
#[derive(Debug, Clone, Copy, Default, PartialEq, Eq)]
pub struct DecimalScalar {
    pub mantissa: i128,
    pub scale: u32,
}

/// A decimal number given by a caller.
#[derive(Debug, Clone, Copy, Default, PartialEq, Eq)]
pub struct DecimalInputScalar {
    pub mantissa: i128,
    pub scale: u32,
}

/// A JSON document, kept as its text.
#[derive(Debug, Clone, PartialEq, Eq)]
pub struct JsonText(pub String);

/// Where a page stands in its connection.
#[derive(Debug, Clone, Default, PartialEq, Eq)]
pub struct PageInfo {
    pub has_next_page: bool,
    pub has_previous_page: bool,
    pub start_cursor: Option<CursorScalar>,
    pub end_cursor: Option<CursorScalar>,
}

} // verus!
