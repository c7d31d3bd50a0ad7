//! Small value types that endpoints use as query parameters.

use vstd::prelude::*;

verus! {

/// Direction in which a listing is ordered.
#[derive(Clone, Copy, Debug, PartialEq, Eq, Structural)]
pub enum OrderDirection {
    Ascending,
    Descending,
}

impl OrderDirection {
    /// The value this direction has on the wire.
    pub open spec fn wire_name(self) -> Seq<char> {
        match self {
            OrderDirection::Ascending => "asc"@,
            OrderDirection::Descending => "desc"@,
        }
    }

    /// Gives the value this direction has on the wire.
    pub fn as_str(&self) -> (name: &'static str)
        ensures
            name@ == self.wire_name(),
    {
        match self {
            OrderDirection::Ascending => "asc",
            OrderDirection::Descending => "desc",
        }
    }
}

/// Whether a search returns what matches every requirement or at least one.
#[derive(Clone, Copy, Debug, PartialEq, Eq, Structural)]
pub enum SearchMatch {
    /// Match all search requirements.
    All,
    /// Match at least one search requirement.
    Any,
}

impl SearchMatch {
    /// The value this mode has on the wire.
    pub open spec fn wire_name(self) -> Seq<char> {
        match self {
            SearchMatch::All => "all"@,
            SearchMatch::Any => "any"@,
        }
    }

    /// Gives the value this mode has on the wire.
    pub fn as_str(&self) -> (name: &'static str)
        ensures
            name@ == self.wire_name(),
    {
        match self {
            SearchMatch::All => "all",
            SearchMatch::Any => "any",
        }
    }
}

} // verus!
