//! The path prefixes of the endpoint families.

use vstd::prelude::*;

verus! {

pub const SUMMONER_API_PATH: &'static str = "/lol/summoner/v4/summoners";

pub const CHAMPION_ROTATIONS_PATH: &'static str = "/lol/platform/v3/champion-rotations";

pub const CHAMPION_MASTERY_PATH: &'static str = "/lol/champion-mastery/v4/champion-masteries";

pub const SCORE_MASTERY_PATH: &'static str = "/lol/champion-mastery/v4/scores";

pub const LEAGUE_PATH: &'static str = "/lol/league/v4";

pub const MATCH_V4_PATH: &'static str = "/lol/match/v4";

} // verus!
