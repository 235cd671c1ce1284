use vstd::prelude::*;

use crate::endpoints::paths::SUMMONER_API_PATH;
use crate::text::join3;
use crate::api::Api;
use crate::regions::WithHosts;
use crate::request::{ApiRequest, HttpMethod, RequestError};

verus! {

/// Summoner lookups on the client's host.
pub struct SummonerApi<'a, T> {
    pub api: &'a Api<T>,
}

impl<'a, T: WithHosts + Copy> SummonerApi<'a, T> {
    pub fn new(api: &'a Api<T>) -> (r: Self)
        ensures
            r.api == api,
    {
        SummonerApi { api }
    }

    /// The request for a summoner by name.
    pub fn by_name(&self, name: &str) -> (r: Result<ApiRequest, RequestError>)
        ensures
            self.api.client.builds(HttpMethod::Get, self.api.region.host_label(), SUMMONER_API_PATH@ + "/by-name/"@ + name@, Seq::empty(), r),
    {
        let path = join3(SUMMONER_API_PATH, "/by-name/", name);
        self.api.client_request(path)
    }

    /// The request for a summoner by account ID.
    pub fn by_account_id(&self, account_id: &str) -> (r: Result<ApiRequest, RequestError>)
        ensures
            self.api.client.builds(HttpMethod::Get, self.api.region.host_label(), SUMMONER_API_PATH@ + "/by-account/"@ + account_id@, Seq::empty(), r),
    {
        let path = join3(SUMMONER_API_PATH, "/by-account/", account_id);
        self.api.client_request(path)
    }

    /// The request for a summoner by PUUID.
    pub fn by_puuid(&self, puuid: &str) -> (r: Result<ApiRequest, RequestError>)
        ensures
            self.api.client.builds(HttpMethod::Get, self.api.region.host_label(), SUMMONER_API_PATH@ + "/by-puuid/"@ + puuid@, Seq::empty(), r),
    {
        let path = join3(SUMMONER_API_PATH, "/by-puuid/", puuid);
        self.api.client_request(path)
    }

    /// The request for a summoner by summoner ID.
    pub fn by_summoner_id(&self, id: &str) -> (r: Result<ApiRequest, RequestError>)
        ensures
            self.api.client.builds(HttpMethod::Get, self.api.region.host_label(), SUMMONER_API_PATH@ + "/"@ + id@, Seq::empty(), r),
    {
        let path = join3(SUMMONER_API_PATH, "/", id);
        self.api.client_request(path)
    }
}

} // verus!
