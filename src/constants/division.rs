use vstd::prelude::*;

use crate::text::{lower_of, lowercase, text_is};

verus! {

/// A division within a tier, from `I` (highest) to `V`.
#[derive(Clone, Copy, Debug, PartialEq, Eq, Structural)]
pub enum Division {
    I,
    II,
    III,
    IV,
    V,
}

/// A text that names no division.
#[derive(Clone, Debug, PartialEq, Eq)]
pub enum DivisionError {
    InvalidDivision { value: String },
}

impl Division {
    /// The canonical form, the same for display and on the wire.
    pub open spec fn spec_value(self) -> Seq<char> {
        match self {
            Division::I => "I"@,
            Division::II => "II"@,
            Division::III => "III"@,
            Division::IV => "IV"@,
            Division::V => "V"@,
        }
    }

    pub fn value(&self) -> (r: &'static str)
        ensures
            r@ == self.spec_value(),
    {
        match *self {
            Division::I => "I",
            Division::II => "II",
            Division::III => "III",
            Division::IV => "IV",
            Division::V => "V",
        }
    }

    /// The value that a lowercased text names, if any.
    pub open spec fn named_by(l: Seq<char>) -> Option<Division> {
        if l == "i"@ || l == "1"@ {
            Some(Division::I)
        } else if l == "ii"@ || l == "2"@ {
            Some(Division::II)
        } else if l == "iii"@ || l == "3"@ {
            Some(Division::III)
        } else if l == "iv"@ || l == "4"@ {
            Some(Division::IV)
        } else if l == "v"@ || l == "5"@ {
            Some(Division::V)
        } else {
            None
        }
    }

    /// `r` is what parsing the lowercased text `l` gives: the value it names,
    /// or an error that carries `l`.
    pub open spec fn parses_as(l: Seq<char>, r: Result<Division, DivisionError>) -> bool {
        match Self::named_by(l) {
            Some(v) => r == Ok::<Division, DivisionError>(v),
            None => (r matches Err(DivisionError::InvalidDivision { value }) && value@ == l),
        }
    }

    /// Parses a text that is already lowercase.
    pub fn from_lowered(l: &str) -> (r: Result<Division, DivisionError>)
        ensures
            Self::parses_as(l@, r),
    {
        if text_is(l, "i") || text_is(l, "1") {
            Ok(Division::I)
        } else if text_is(l, "ii") || text_is(l, "2") {
            Ok(Division::II)
        } else if text_is(l, "iii") || text_is(l, "3") {
            Ok(Division::III)
        } else if text_is(l, "iv") || text_is(l, "4") {
            Ok(Division::IV)
        } else if text_is(l, "v") || text_is(l, "5") {
            Ok(Division::V)
        } else {
            Err(DivisionError::InvalidDivision { value: l.to_owned() })
        }
    }

    /// Parses a text case-insensitively.
    pub fn parse_str(s: &str) -> (r: Result<Division, DivisionError>)
        ensures
            Self::parses_as(lower_of(s@), r),
    {
        let l = lowercase(s);
        Self::from_lowered(l.as_str())
    }
}

impl std::str::FromStr for Division {
    type Err = DivisionError;

    fn from_str(s: &str) -> Result<Division, DivisionError> {
        Division::parse_str(s)
    }
}

} // verus!
