use vstd::prelude::*;

use crate::endpoints::paths::{CHAMPION_MASTERY_PATH, SCORE_MASTERY_PATH};
use crate::text::{decimal, decimal_u64, join3, join5};
use crate::api::Api;
use crate::regions::WithHosts;
use crate::request::{ApiRequest, HttpMethod, RequestError};

verus! {

/// Champion mastery on the client's host.
pub struct ChampionMasteryApi<'a, T> {
    pub api: &'a Api<T>,
}

impl<'a, T: WithHosts + Copy> ChampionMasteryApi<'a, T> {
    pub fn new(api: &'a Api<T>) -> (r: Self)
        ensures
            r.api == api,
    {
        ChampionMasteryApi { api }
    }

    /// The request for all champion mastery entries of a summoner.
    pub fn by_summoner_id(&self, summoner_id: &str) -> (r: Result<ApiRequest, RequestError>)
        ensures
            self.api.client.builds(HttpMethod::Get, self.api.region.host_label(), CHAMPION_MASTERY_PATH@ + "/by-summoner/"@ + summoner_id@, Seq::empty(), r),
    {
        let path = get_champion_mastery_path("/by-summoner/", summoner_id);
        self.api.client_request(path)
    }

    /// The request for the mastery of one champion by one summoner.
    pub fn by_champion_id(&self, summoner_id: &str, champion_id: u32) -> (r: Result<ApiRequest, RequestError>)
        ensures
            self.api.client.builds(HttpMethod::Get, self.api.region.host_label(), CHAMPION_MASTERY_PATH@ + "/by-summoner/"@ + summoner_id@ + "/by-champion/"@ + decimal(champion_id as nat), Seq::empty(), r),
    {
        let id = decimal_u64(champion_id as u64);
        let path = join5(CHAMPION_MASTERY_PATH, "/by-summoner/", summoner_id, "/by-champion/", id.as_str());
        self.api.client_request(path)
    }

    /// The request for a summoner's total mastery score.
    pub fn total_score(&self, summoner_id: &str) -> (r: Result<ApiRequest, RequestError>)
        ensures
            self.api.client.builds(HttpMethod::Get, self.api.region.host_label(), SCORE_MASTERY_PATH@ + "/by-summoner/"@ + summoner_id@, Seq::empty(), r),
    {
        let path = join3(SCORE_MASTERY_PATH, "/by-summoner/", summoner_id);
        self.api.client_request(path)
    }
}

/// A champion mastery path: the family's prefix, a route and its parameter.
pub fn get_champion_mastery_path(route: &str, param: &str) -> (r: String)
    ensures
        r@ == CHAMPION_MASTERY_PATH@ + route@ + param@,
{
    join3(CHAMPION_MASTERY_PATH, route, param)
}

} // verus!
