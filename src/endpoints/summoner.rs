use vstd::prelude::*;

use super::paths::SUMMONER_API_PATH;
use crate::regions::WithHosts;
use crate::request::{ApiRequest, HttpMethod, RequestError, RiotApi};
use crate::text::join3;

verus! {

/// Summoner lookups (summoner-v4).
pub struct SummonerV4<'a> {
    pub api: &'a RiotApi,
}

impl<'a> SummonerV4<'a> {
    pub fn new(api: &'a RiotApi) -> (r: Self)
        ensures
            r.api == api,
    {
        SummonerV4 { api }
    }

    /// The request for a summoner by summoner name.
    pub fn get_by_summoner_name<T: WithHosts>(&self, region: T, summoner_name: &str) -> (r: Result<ApiRequest, RequestError>)
        ensures
            self.api.builds(HttpMethod::Get, region.host_label(), SUMMONER_API_PATH@ + "/by-name/"@ + summoner_name@, Seq::empty(), r),
    {
        let path = join3(SUMMONER_API_PATH, "/by-name/", summoner_name);
        self.api.get(region, path)
    }

    /// The request for a summoner by encrypted account ID.
    pub fn get_by_account_id<T: WithHosts>(&self, region: T, encrypted_account_id: &str) -> (r: Result<ApiRequest, RequestError>)
        ensures
            self.api.builds(HttpMethod::Get, region.host_label(), SUMMONER_API_PATH@ + "/by-account/"@ + encrypted_account_id@, Seq::empty(), r),
    {
        let path = join3(SUMMONER_API_PATH, "/by-account/", encrypted_account_id);
        self.api.get(region, path)
    }

    /// The request for a summoner by encrypted PUUID.
    pub fn get_by_puuid<T: WithHosts>(&self, region: T, encrypted_puuid: &str) -> (r: Result<ApiRequest, RequestError>)
        ensures
            self.api.builds(HttpMethod::Get, region.host_label(), SUMMONER_API_PATH@ + "/by-puuid/"@ + encrypted_puuid@, Seq::empty(), r),
    {
        let path = join3(SUMMONER_API_PATH, "/by-puuid/", encrypted_puuid);
        self.api.get(region, path)
    }

    /// The request for a summoner by encrypted summoner ID.
    pub fn get_by_summoner_id<T: WithHosts>(&self, region: T, encrypted_summoner_id: &str) -> (r: Result<ApiRequest, RequestError>)
        ensures
            self.api.builds(HttpMethod::Get, region.host_label(), SUMMONER_API_PATH@ + "/"@ + encrypted_summoner_id@, Seq::empty(), r),
    {
        let path = join3(SUMMONER_API_PATH, "/", encrypted_summoner_id);
        self.api.get(region, path)
    }

    /// The request for a summoner by name; the same as `get_by_summoner_name`.
    pub fn by_name<T: WithHosts>(&self, region: T, name: &str) -> (r: Result<ApiRequest, RequestError>)
        ensures
            self.api.builds(HttpMethod::Get, region.host_label(), SUMMONER_API_PATH@ + "/by-name/"@ + name@, Seq::empty(), r),
    {
        self.get_by_summoner_name(region, name)
    }

    /// The request for a summoner by account ID; the same as `get_by_account_id`.
    pub fn by_account_id<T: WithHosts>(&self, region: T, account_id: &str) -> (r: Result<ApiRequest, RequestError>)
        ensures
            self.api.builds(HttpMethod::Get, region.host_label(), SUMMONER_API_PATH@ + "/by-account/"@ + account_id@, Seq::empty(), r),
    {
        self.get_by_account_id(region, account_id)
    }

    /// The request for a summoner by PUUID; the same as `get_by_puuid`.
    pub fn by_puuid<T: WithHosts>(&self, region: T, puuid: &str) -> (r: Result<ApiRequest, RequestError>)
        ensures
            self.api.builds(HttpMethod::Get, region.host_label(), SUMMONER_API_PATH@ + "/by-puuid/"@ + puuid@, Seq::empty(), r),
    {
        self.get_by_puuid(region, puuid)
    }

    /// The request for a summoner by summoner ID; the same as `get_by_summoner_id`.
    pub fn by_summoner_id<T: WithHosts>(&self, region: T, id: &str) -> (r: Result<ApiRequest, RequestError>)
        ensures
            self.api.builds(HttpMethod::Get, region.host_label(), SUMMONER_API_PATH@ + "/"@ + id@, Seq::empty(), r),
    {
        self.get_by_summoner_id(region, id)
    }
}

} // verus!
