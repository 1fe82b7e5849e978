//! What belongs to the header of a feed message.

use vstd::prelude::*;
use vstd::std_specs::convert::FromSpecImpl;

verus! {

/// Whether a feed message holds everything or only what changed.
#[allow(non_camel_case_types)]
#[derive(Debug, Clone, Copy, PartialEq, Eq, Structural)]
pub enum Incrementality {
    FULL_DATASET,
    DIFFERENTIAL,
}

impl Incrementality {
    /// The number that stands for the value in the feed.
    pub open spec fn number(self) -> int {
        match self {
            Incrementality::FULL_DATASET => 0,
            Incrementality::DIFFERENTIAL => 1,
        }
    }

    /// The value that a number stands for; the default for a number that
    /// stands for none.
    pub open spec fn of_number(i: int) -> Self {
        if i == 0 {
            Incrementality::FULL_DATASET
        } else if i == 1 {
            Incrementality::DIFFERENTIAL
        } else {
            Incrementality::FULL_DATASET
        }
    }

    /// The value that a name stands for; the default for a name that stands
    /// for none.
    pub open spec fn of_name(s: Seq<char>) -> Self {
        if s == "FULL_DATASET"@ {
            Incrementality::FULL_DATASET
        } else if s == "DIFFERENTIAL"@ {
            Incrementality::DIFFERENTIAL
        } else {
            Incrementality::FULL_DATASET
        }
    }

    /// The number that stands for the value in the feed.
    pub fn to_i32(self) -> (i: i32)
        ensures
            i == self.number(),
    {
        match self {
            Incrementality::FULL_DATASET => 0,
            Incrementality::DIFFERENTIAL => 1,
        }
    }
}

impl Default for Incrementality {
    fn default() -> (r: Self)
        ensures
            r == Incrementality::FULL_DATASET,
    {
        Incrementality::FULL_DATASET
    }
}

impl From<i32> for Incrementality {
    fn from(i: i32) -> (r: Self) {
        if i == 0 {
            Incrementality::FULL_DATASET
        } else if i == 1 {
            Incrementality::DIFFERENTIAL
        } else {
            Incrementality::FULL_DATASET
        }
    }
}

impl FromSpecImpl<i32> for Incrementality {
    open spec fn obeys_from_spec() -> bool {
        true
    }

    open spec fn from_spec(i: i32) -> Self {
        Incrementality::of_number(i as int)
    }
}

impl<'a> From<&'a str> for Incrementality {
    fn from(s: &'a str) -> (r: Self) {
        let text = s.to_owned();
        if text == "FULL_DATASET".to_owned() {
            Incrementality::FULL_DATASET
        } else if text == "DIFFERENTIAL".to_owned() {
            Incrementality::DIFFERENTIAL
        } else {
            Incrementality::FULL_DATASET
        }
    }
}

impl<'a> FromSpecImpl<&'a str> for Incrementality {
    open spec fn obeys_from_spec() -> bool {
        true
    }

    open spec fn from_spec(s: &'a str) -> Self {
        Incrementality::of_name(s@)
    }
}
} // verus!
