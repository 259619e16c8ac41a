//! The four-valued trend classification and its fixed string encoding used
//! at the storage boundary.
use vstd::prelude::*;

verus! {

use crate::helper::str_eq;

/// Classification of a metric's movement over time.  `Irrelevant` means the
/// series was too short or too sparse to classify.
#[derive(Clone, Copy, Debug, PartialEq, Eq, Structural)]
pub enum Trend {
    Uptrend,
    Downtrend,
    Flat,
    Irrelevant,
}

/// Number of occurrences of `t` in `s`.
pub open spec fn count_trend(s: Seq<Trend>, t: Trend) -> int
    decreases s.len(),
{
    if s.len() == 0 {
        0
    } else {
        count_trend(s.drop_last(), t) + if s.last() == t {
            1int
        } else {
            0int
        }
    }
}

impl Trend {
    /// The fixed string each variant is stored under.
    pub open spec fn spec_storage_str(self) -> Seq<char> {
        match self {
            Trend::Uptrend => "up"@,
            Trend::Downtrend => "down"@,
            Trend::Flat => "flat"@,
            Trend::Irrelevant => "irrelevant"@,
        }
    }

    /// Encodes the trend for the storage collaborator.
    pub fn to_storage_str(&self) -> (r: &'static str)
        ensures
            r@ == self.spec_storage_str(),
    {
        match self {
            Trend::Uptrend => "up",
            Trend::Downtrend => "down",
            Trend::Flat => "flat",
            Trend::Irrelevant => "irrelevant",
        }
    }

    /// Decodes a stored trend string; anything but the four fixed encodings
    /// is rejected.
    pub fn from_storage_str(s: &str) -> (r: Option<Trend>)
        ensures
            r == (if s@ == "up"@ {
                Some(Trend::Uptrend)
            } else if s@ == "down"@ {
                Some(Trend::Downtrend)
            } else if s@ == "flat"@ {
                Some(Trend::Flat)
            } else if s@ == "irrelevant"@ {
                Some(Trend::Irrelevant)
            } else {
                None::<Trend>
            }),
    {
        if str_eq(s, "up") {
            Some(Trend::Uptrend)
        } else if str_eq(s, "down") {
            Some(Trend::Downtrend)
        } else if str_eq(s, "flat") {
            Some(Trend::Flat)
        } else if str_eq(s, "irrelevant") {
            Some(Trend::Irrelevant)
        } else {
            None
        }
    }
}

} // verus!
