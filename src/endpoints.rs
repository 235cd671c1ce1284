//! The endpoint families of the API, each a set of typed request builders.

mod champion;
mod champion_mastery;
mod league;
mod match_v4;
pub mod paths;
mod summoner;

pub use self::champion::ChampionV3;
pub use self::champion_mastery::ChampionMasteryV4;
pub use self::league::{league_entries_query, league_entries_pairs, GetLeagueEntriesParams, LeagueV4};
pub use self::match_v4::{matchlist_pairs, matchlist_query, GetMatchlistParameters, MatchV4};
pub use self::summoner::SummonerV4;
