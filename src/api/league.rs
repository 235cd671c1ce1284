use vstd::prelude::*;

use crate::constants::{Queue, Rank, Tier};
use crate::endpoints::paths::LEAGUE_PATH;
use crate::text::join3;
use crate::api::Api;
use crate::regions::WithHosts;
use crate::request::{ApiRequest, HttpMethod, RequestError};

verus! {

/// League standings on the client's host.
pub struct LeagueApi<'a, T> {
    pub api: &'a Api<T>,
}

impl<'a, T: WithHosts + Copy> LeagueApi<'a, T> {
    pub fn new(api: &'a Api<T>) -> (r: Self)
        ensures
            r.api == api,
    {
        LeagueApi { api }
    }

    /// The request for the challenger league of a queue.
    pub fn challenger_leagues_by_queue(&self, queue: Queue) -> (r: Result<ApiRequest, RequestError>)
        ensures
            self.api.client.builds(HttpMethod::Get, self.api.region.host_label(), LEAGUE_PATH@ + "/challengerleagues/by-queue/"@ + queue.spec_value(), Seq::empty(), r),
    {
        let path = join3(LEAGUE_PATH, "/challengerleagues/by-queue/", queue.value());
        self.api.client_request(path)
    }

    /// The request for the grandmaster league of a queue.
    pub fn grandmaster_leagues_by_queue(&self, queue: Queue) -> (r: Result<ApiRequest, RequestError>)
        ensures
            self.api.client.builds(HttpMethod::Get, self.api.region.host_label(), LEAGUE_PATH@ + "/grandmasterleagues/by-queue/"@ + queue.spec_value(), Seq::empty(), r),
    {
        let path = join3(LEAGUE_PATH, "/grandmasterleagues/by-queue/", queue.value());
        self.api.client_request(path)
    }

    /// The request for the master league of a queue.
    pub fn master_leagues_by_queue(&self, queue: Queue) -> (r: Result<ApiRequest, RequestError>)
        ensures
            self.api.client.builds(HttpMethod::Get, self.api.region.host_label(), LEAGUE_PATH@ + "/masterleagues/by-queue/"@ + queue.spec_value(), Seq::empty(), r),
    {
        let path = join3(LEAGUE_PATH, "/masterleagues/by-queue/", queue.value());
        self.api.client_request(path)
    }

    /// The request for a league by its ID.
    pub fn leagues_by_id(&self, league_id: &str) -> (r: Result<ApiRequest, RequestError>)
        ensures
            self.api.client.builds(HttpMethod::Get, self.api.region.host_label(), LEAGUE_PATH@ + "/leagues/"@ + league_id@, Seq::empty(), r),
    {
        let path = join3(LEAGUE_PATH, "/leagues/", league_id);
        self.api.client_request(path)
    }

    /// The request for a summoner's league entries.
    pub fn entries_by_summoner_id(&self, summoner_id: &str) -> (r: Result<ApiRequest, RequestError>)
        ensures
            self.api.client.builds(HttpMethod::Get, self.api.region.host_label(), LEAGUE_PATH@ + "/entries/by-summoner/"@ + summoner_id@, Seq::empty(), r),
    {
        let path = join3(LEAGUE_PATH, "/entries/by-summoner/", summoner_id);
        self.api.client_request(path)
    }

    /// The request for the league entries of a queue, tier and rank.
    pub fn entries(&self, queue: Queue, tier: Tier, rank: Rank) -> (r: Result<ApiRequest, RequestError>)
        ensures
            self.api.client.builds(HttpMethod::Get, self.api.region.host_label(), LEAGUE_PATH@ + "/entries/"@ + queue.spec_value() + "/"@ + tier.spec_value() + "/"@ + rank.spec_value(), Seq::empty(), r),
    {
        let mut path = join3(LEAGUE_PATH, "/entries/", queue.value());
        path.append("/");
        path.append(tier.value());
        path.append("/");
        path.append(rank.value());
        self.api.client_request(path)
    }
}

} // verus!
