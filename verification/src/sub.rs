//! Sort orders for listing endpoints, rendered as URL query parameters.

use vstd::prelude::*;

verus! {

/// Sort order of a listing.
pub enum Sort {
    /// Hot
    Hot,
    /// New
    New,
    /// Rising
    Rising,
    /// Top within the given time window
    Top(SortTime),
    /// Most controversial within the given time window
    Controversial(SortTime),
}

/// Time window of a `Top` or `Controversial` sort.
pub enum SortTime {
    /// Past hour
    Hour,
    /// Past day
    Day,
    /// Past week
    Week,
    /// Past month
    Month,
    /// Past year
    Year,
    /// All time
    All,
}

impl Sort {
    /// The query parameters that select this sort order.
    pub fn param<'a>(self) -> (r: Vec<(&'a str, &'a str)>)
        ensures
            r@ == self.spec_param(),
    {
        match self {
            Sort::Hot => vec![("sort", "hot")],
            Sort::New => vec![("sort", "new")],
            Sort::Rising => vec![("sort", "rising")],
            Sort::Top(sort) => vec![("sort", "top"), sort.param()],
            Sort::Controversial(sort) => vec![("sort", "controversial"), sort.param()],
        }
    }

    /// The parameter list, as a sequence of key/value pairs.
    pub open spec fn spec_param(self) -> Seq<(&'static str, &'static str)> {
        match self {
            Sort::Hot => seq![("sort", "hot")],
            Sort::New => seq![("sort", "new")],
            Sort::Rising => seq![("sort", "rising")],
            Sort::Top(sort) => seq![("sort", "top"), sort.spec_param()],
            Sort::Controversial(sort) => seq![("sort", "controversial"), sort.spec_param()],
        }
    }
}

impl SortTime {
    /// The query parameter that selects this time window.
    pub fn param<'a>(self) -> (r: (&'a str, &'a str))
        ensures
            r == self.spec_param(),
    {
        (
            "t",
            match self {
                SortTime::Hour => "hour",
                SortTime::Day => "day",
                SortTime::Week => "week",
                SortTime::Month => "month",
                SortTime::Year => "year",
                SortTime::All => "all",
            },
        )
    }

    /// The parameter, as a key/value pair.
    pub open spec fn spec_param(self) -> (&'static str, &'static str) {
        match self {
            SortTime::Hour => ("t", "hour"),
            SortTime::Day => ("t", "day"),
            SortTime::Week => ("t", "week"),
            SortTime::Month => ("t", "month"),
            SortTime::Year => ("t", "year"),
            SortTime::All => ("t", "all"),
        }
    }
}

} // verus!
