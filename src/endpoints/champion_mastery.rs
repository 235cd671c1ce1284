use vstd::prelude::*;

use super::paths::{CHAMPION_MASTERY_PATH, SCORE_MASTERY_PATH};
use crate::regions::WithHosts;
use crate::request::{ApiRequest, HttpMethod, RequestError, RiotApi};
use crate::text::{decimal, decimal_u64, join3, join5};

verus! {

/// Champion mastery (champion-mastery-v4).
pub struct ChampionMasteryV4<'a> {
    pub api: &'a RiotApi,
}

impl<'a> ChampionMasteryV4<'a> {
    pub fn new(api: &'a RiotApi) -> (r: Self)
        ensures
            r.api == api,
    {
        ChampionMasteryV4 { api }
    }

    /// The request for all champion mastery entries of a summoner.
    pub fn get_all_champion_masteries<T: WithHosts>(&self, region: T, encrypted_summoner_id: &str) -> (r: Result<ApiRequest, RequestError>)
        ensures
            self.api.builds(HttpMethod::Get, region.host_label(), CHAMPION_MASTERY_PATH@ + "/by-summoner/"@ + encrypted_summoner_id@, Seq::empty(), r),
    {
        let path = join3(CHAMPION_MASTERY_PATH, "/by-summoner/", encrypted_summoner_id);
        self.api.get(region, path)
    }

    /// The request for the mastery of one champion by one summoner.
    pub fn get_champion_mastery<T: WithHosts>(&self, region: T, encrypted_summoner_id: &str, champion_id: u32) -> (r: Result<ApiRequest, RequestError>)
        ensures
            self.api.builds(
                HttpMethod::Get,
                region.host_label(),
                CHAMPION_MASTERY_PATH@ + "/by-summoner/"@ + encrypted_summoner_id@ + "/by-champion/"@ + decimal(champion_id as nat),
                Seq::empty(),
                r,
            ),
    {
        let id = decimal_u64(champion_id as u64);
        let path = join5(CHAMPION_MASTERY_PATH, "/by-summoner/", encrypted_summoner_id, "/by-champion/", id.as_str());
        self.api.get(region, path)
    }

    /// The request for a summoner's total mastery score.
    pub fn get_champion_mastery_score<T: WithHosts>(&self, region: T, encrypted_summoner_id: &str) -> (r: Result<ApiRequest, RequestError>)
        ensures
            self.api.builds(HttpMethod::Get, region.host_label(), SCORE_MASTERY_PATH@ + "/by-summoner/"@ + encrypted_summoner_id@, Seq::empty(), r),
    {
        let path = join3(SCORE_MASTERY_PATH, "/by-summoner/", encrypted_summoner_id);
        self.api.get(region, path)
    }
}

} // verus!
