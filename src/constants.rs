//! Closed, string-backed enumerations of game values.

mod division;
mod queue;
mod rank;
mod tier;

pub use self::division::{Division, DivisionError};
pub use self::queue::{Queue, QueueError};
pub use self::rank::{Rank, RankError};
pub use self::tier::{Tier, TierError};
