use vstd::prelude::*;

use crate::text::{lower_of, lowercase, text_is};

verus! {

/// A ranked queue.
#[derive(Clone, Copy, Debug, PartialEq, Eq, Structural)]
pub enum Queue {
    RankedSolo5x5,
    RankedTft,
    RankedFlexSr,
    RankedFlexIt,
}

/// A text that names no queue.
#[derive(Clone, Debug, PartialEq, Eq)]
pub enum QueueError {
    InvalidQueue { value: String },
}

impl Queue {
    /// The canonical form, the same for display and on the wire.
    pub open spec fn spec_value(self) -> Seq<char> {
        match self {
            Queue::RankedSolo5x5 => "RANKED_SOLO_5x5"@,
            Queue::RankedTft => "RANKED_TFT"@,
            Queue::RankedFlexSr => "RANKED_FLEX_SR"@,
            Queue::RankedFlexIt => "RANKED_FLEX_IT"@,
        }
    }

    pub fn value(&self) -> (r: &'static str)
        ensures
            r@ == self.spec_value(),
    {
        match *self {
            Queue::RankedSolo5x5 => "RANKED_SOLO_5x5",
            Queue::RankedTft => "RANKED_TFT",
            Queue::RankedFlexSr => "RANKED_FLEX_SR",
            Queue::RankedFlexIt => "RANKED_FLEX_IT",
        }
    }

    /// The value that a lowercased text names, if any.
    pub open spec fn named_by(l: Seq<char>) -> Option<Queue> {
        if l == "ranked_solo_5x5"@ {
            Some(Queue::RankedSolo5x5)
        } else if l == "ranked_tft"@ {
            Some(Queue::RankedTft)
        } else if l == "ranked_flex_sr"@ {
            Some(Queue::RankedFlexSr)
        } else if l == "ranked_flex_it"@ {
            Some(Queue::RankedFlexIt)
        } else {
            None
        }
    }

    /// `r` is what parsing the lowercased text `l` gives: the value it names,
    /// or an error that carries `l`.
    pub open spec fn parses_as(l: Seq<char>, r: Result<Queue, QueueError>) -> bool {
        match Self::named_by(l) {
            Some(v) => r == Ok::<Queue, QueueError>(v),
            None => (r matches Err(QueueError::InvalidQueue { value }) && value@ == l),
        }
    }

    /// Parses a text that is already lowercase.
    pub fn from_lowered(l: &str) -> (r: Result<Queue, QueueError>)
        ensures
            Self::parses_as(l@, r),
    {
        if text_is(l, "ranked_solo_5x5") {
            Ok(Queue::RankedSolo5x5)
        } else if text_is(l, "ranked_tft") {
            Ok(Queue::RankedTft)
        } else if text_is(l, "ranked_flex_sr") {
            Ok(Queue::RankedFlexSr)
        } else if text_is(l, "ranked_flex_it") {
            Ok(Queue::RankedFlexIt)
        } else {
            Err(QueueError::InvalidQueue { value: l.to_owned() })
        }
    }

    /// Parses a text case-insensitively.
    pub fn parse_str(s: &str) -> (r: Result<Queue, QueueError>)
        ensures
            Self::parses_as(lower_of(s@), r),
    {
        let l = lowercase(s);
        Self::from_lowered(l.as_str())
    }
}

impl std::str::FromStr for Queue {
    type Err = QueueError;

    fn from_str(s: &str) -> Result<Queue, QueueError> {
        Queue::parse_str(s)
    }
}

} // verus!
