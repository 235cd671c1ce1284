use vstd::prelude::*;

use crate::text::{lower_of, lowercase, text_is};

verus! {

/// A rank within a tier, from `I` (highest) to `V`.
#[derive(Clone, Copy, Debug, PartialEq, Eq, Structural)]
pub enum Rank {
    I,
    II,
    III,
    IV,
    V,
}

/// A text that names no rank.
#[derive(Clone, Debug, PartialEq, Eq)]
pub enum RankError {
    InvalidRank { value: String },
}

impl Rank {
    /// The canonical form, the same for display and on the wire.
    pub open spec fn spec_value(self) -> Seq<char> {
        match self {
            Rank::I => "I"@,
            Rank::II => "II"@,
            Rank::III => "III"@,
            Rank::IV => "IV"@,
            Rank::V => "V"@,
        }
    }

    pub fn value(&self) -> (r: &'static str)
        ensures
            r@ == self.spec_value(),
    {
        match *self {
            Rank::I => "I",
            Rank::II => "II",
            Rank::III => "III",
            Rank::IV => "IV",
            Rank::V => "V",
        }
    }

    /// The value that a lowercased text names, if any.
    pub open spec fn named_by(l: Seq<char>) -> Option<Rank> {
        if l == "i"@ || l == "1"@ {
            Some(Rank::I)
        } else if l == "ii"@ || l == "2"@ {
            Some(Rank::II)
        } else if l == "iii"@ || l == "3"@ {
            Some(Rank::III)
        } else if l == "iv"@ || l == "4"@ {
            Some(Rank::IV)
        } else if l == "v"@ || l == "5"@ {
            Some(Rank::V)
        } else {
            None
        }
    }

    /// `r` is what parsing the lowercased text `l` gives: the value it names,
    /// or an error that carries `l`.
    pub open spec fn parses_as(l: Seq<char>, r: Result<Rank, RankError>) -> bool {
        match Self::named_by(l) {
            Some(v) => r == Ok::<Rank, RankError>(v),
            None => (r matches Err(RankError::InvalidRank { value }) && value@ == l),
        }
    }

    /// Parses a text that is already lowercase.
    pub fn from_lowered(l: &str) -> (r: Result<Rank, RankError>)
        ensures
            Self::parses_as(l@, r),
    {
        if text_is(l, "i") || text_is(l, "1") {
            Ok(Rank::I)
        } else if text_is(l, "ii") || text_is(l, "2") {
            Ok(Rank::II)
        } else if text_is(l, "iii") || text_is(l, "3") {
            Ok(Rank::III)
        } else if text_is(l, "iv") || text_is(l, "4") {
            Ok(Rank::IV)
        } else if text_is(l, "v") || text_is(l, "5") {
            Ok(Rank::V)
        } else {
            Err(RankError::InvalidRank { value: l.to_owned() })
        }
    }

    /// Parses a text case-insensitively.
    pub fn parse_str(s: &str) -> (r: Result<Rank, RankError>)
        ensures
            Self::parses_as(lower_of(s@), r),
    {
        let l = lowercase(s);
        Self::from_lowered(l.as_str())
    }
}

impl std::str::FromStr for Rank {
    type Err = RankError;

    fn from_str(s: &str) -> Result<Rank, RankError> {
        Rank::parse_str(s)
    }
}

} // verus!
