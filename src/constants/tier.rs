use vstd::prelude::*;

use crate::text::{lower_of, lowercase, text_is};

verus! {

/// A ranked tier, from `Iron` (lowest) to `Challenger`.
#[derive(Clone, Copy, Debug, PartialEq, Eq, Structural)]
pub enum Tier {
    Iron,
    Bronze,
    Silver,
    Gold,
    Platinum,
    Diamond,
    Master,
    GrandMaster,
    Challenger,
}

/// A text that names no tier.
#[derive(Clone, Debug, PartialEq, Eq)]
pub enum TierError {
    InvalidTier { value: String },
}

impl Tier {
    /// The canonical form, the same for display and on the wire.
    pub open spec fn spec_value(self) -> Seq<char> {
        match self {
            Tier::Iron => "IRON"@,
            Tier::Bronze => "BRONZE"@,
            Tier::Silver => "SILVER"@,
            Tier::Gold => "GOLD"@,
            Tier::Platinum => "PLATINUM"@,
            Tier::Diamond => "DIAMOND"@,
            Tier::Master => "MASTER"@,
            Tier::GrandMaster => "GRAND_MASTER"@,
            Tier::Challenger => "CHALLENGER"@,
        }
    }

    pub fn value(&self) -> (r: &'static str)
        ensures
            r@ == self.spec_value(),
    {
        match *self {
            Tier::Iron => "IRON",
            Tier::Bronze => "BRONZE",
            Tier::Silver => "SILVER",
            Tier::Gold => "GOLD",
            Tier::Platinum => "PLATINUM",
            Tier::Diamond => "DIAMOND",
            Tier::Master => "MASTER",
            Tier::GrandMaster => "GRAND_MASTER",
            Tier::Challenger => "CHALLENGER",
        }
    }

    /// The value that a lowercased text names, if any.
    pub open spec fn named_by(l: Seq<char>) -> Option<Tier> {
        if l == "iron"@ {
            Some(Tier::Iron)
        } else if l == "bronze"@ {
            Some(Tier::Bronze)
        } else if l == "silver"@ {
            Some(Tier::Silver)
        } else if l == "gold"@ {
            Some(Tier::Gold)
        } else if l == "platinum"@ {
            Some(Tier::Platinum)
        } else if l == "diamond"@ {
            Some(Tier::Diamond)
        } else if l == "master"@ {
            Some(Tier::Master)
        } else if l == "grand_master"@ {
            Some(Tier::GrandMaster)
        } else if l == "challenger"@ {
            Some(Tier::Challenger)
        } else {
            None
        }
    }

    /// `r` is what parsing the lowercased text `l` gives: the value it names,
    /// or an error that carries `l`.
    pub open spec fn parses_as(l: Seq<char>, r: Result<Tier, TierError>) -> bool {
        match Self::named_by(l) {
            Some(v) => r == Ok::<Tier, TierError>(v),
            None => (r matches Err(TierError::InvalidTier { value }) && value@ == l),
        }
    }

    /// Parses a text that is already lowercase.
    pub fn from_lowered(l: &str) -> (r: Result<Tier, TierError>)
        ensures
            Self::parses_as(l@, r),
    {
        if text_is(l, "iron") {
            Ok(Tier::Iron)
        } else if text_is(l, "bronze") {
            Ok(Tier::Bronze)
        } else if text_is(l, "silver") {
            Ok(Tier::Silver)
        } else if text_is(l, "gold") {
            Ok(Tier::Gold)
        } else if text_is(l, "platinum") {
            Ok(Tier::Platinum)
        } else if text_is(l, "diamond") {
            Ok(Tier::Diamond)
        } else if text_is(l, "master") {
            Ok(Tier::Master)
        } else if text_is(l, "grand_master") {
            Ok(Tier::GrandMaster)
        } else if text_is(l, "challenger") {
            Ok(Tier::Challenger)
        } else {
            Err(TierError::InvalidTier { value: l.to_owned() })
        }
    }

    /// Parses a text case-insensitively.
    pub fn parse_str(s: &str) -> (r: Result<Tier, TierError>)
        ensures
            Self::parses_as(lower_of(s@), r),
    {
        let l = lowercase(s);
        Self::from_lowered(l.as_str())
    }
}

impl std::str::FromStr for Tier {
    type Err = TierError;

    fn from_str(s: &str) -> Result<Tier, TierError> {
        Tier::parse_str(s)
    }
}

} // verus!
