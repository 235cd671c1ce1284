use vstd::prelude::*;

use super::paths::LEAGUE_PATH;
use crate::constants::{Division, Queue, Tier};
use crate::form::{append_pair, finish_form, form_serialized, lemma_form_serialized_push, new_form};
use crate::regions::WithHosts;
use crate::request::{ApiRequest, HttpMethod, RequestError, RiotApi};
use crate::text::{decimal, decimal_u64, join3};

verus! {

/// The optional query parameters of the league entries listing.
pub struct GetLeagueEntriesParams {
    /// The page to return, from 1.
    pub page: Option<u32>,
}

/// The query pairs of a league entries listing: `page` when it is set.
pub open spec fn league_entries_pairs(p: GetLeagueEntriesParams) -> Seq<(Seq<char>, Seq<char>)> {
    match p.page {
        Some(page) => seq![("page"@, decimal(page as nat))],
        None => Seq::empty(),
    }
}

/// The query string of a league entries listing.
pub fn league_entries_query(parameters: &GetLeagueEntriesParams) -> (r: String)
    ensures
        r@ == form_serialized(league_entries_pairs(*parameters)),
{
    let mut query = new_form();
    match parameters.page {
        Some(page) => {
            let value = decimal_u64(page as u64);
            append_pair(&mut query, "page", value.as_str());
            proof {
                lemma_form_serialized_push(Seq::empty(), "page"@, value@);
                assert(Seq::<(Seq<char>, Seq<char>)>::empty().push(("page"@, value@)) =~= seq![("page"@, value@)]);
            }
        },
        None => {},
    }
    finish_form(query)
}

/// League standings (league-v4).
pub struct LeagueV4<'a> {
    pub api: &'a RiotApi,
}

impl<'a> LeagueV4<'a> {
    pub fn new(api: &'a RiotApi) -> (r: Self)
        ensures
            r.api == api,
    {
        LeagueV4 { api }
    }

    /// The request for the challenger league of a queue.
    pub fn get_challenger_league<T: WithHosts>(&self, region: T, queue: Queue) -> (r: Result<ApiRequest, RequestError>)
        ensures
            self.api.builds(HttpMethod::Get, region.host_label(), LEAGUE_PATH@ + "/challengerleagues/by-queue/"@ + queue.spec_value(), Seq::empty(), r),
    {
        let path = join3(LEAGUE_PATH, "/challengerleagues/by-queue/", queue.value());
        self.api.get(region, path)
    }

    /// The request for the grandmaster league of a queue.
    pub fn get_grandmaster_league<T: WithHosts>(&self, region: T, queue: Queue) -> (r: Result<ApiRequest, RequestError>)
        ensures
            self.api.builds(HttpMethod::Get, region.host_label(), LEAGUE_PATH@ + "/grandmasterleagues/by-queue/"@ + queue.spec_value(), Seq::empty(), r),
    {
        let path = join3(LEAGUE_PATH, "/grandmasterleagues/by-queue/", queue.value());
        self.api.get(region, path)
    }

    /// The request for the master league of a queue.
    pub fn get_master_league<T: WithHosts>(&self, region: T, queue: Queue) -> (r: Result<ApiRequest, RequestError>)
        ensures
            self.api.builds(HttpMethod::Get, region.host_label(), LEAGUE_PATH@ + "/masterleagues/by-queue/"@ + queue.spec_value(), Seq::empty(), r),
    {
        let path = join3(LEAGUE_PATH, "/masterleagues/by-queue/", queue.value());
        self.api.get(region, path)
    }

    /// The request for a league by its ID, inactive entries included.
    pub fn get_league_by_id<T: WithHosts>(&self, region: T, league_id: &str) -> (r: Result<ApiRequest, RequestError>)
        ensures
            self.api.builds(HttpMethod::Get, region.host_label(), LEAGUE_PATH@ + "/leagues/"@ + league_id@, Seq::empty(), r),
    {
        let path = join3(LEAGUE_PATH, "/leagues/", league_id);
        self.api.get(region, path)
    }

    /// The request for a summoner's league entries in all queues.
    pub fn get_league_entries_for_summoner<T: WithHosts>(&self, region: T, summoner_id: &str) -> (r: Result<ApiRequest, RequestError>)
        ensures
            self.api.builds(HttpMethod::Get, region.host_label(), LEAGUE_PATH@ + "/entries/by-summoner/"@ + summoner_id@, Seq::empty(), r),
    {
        let path = join3(LEAGUE_PATH, "/entries/by-summoner/", summoner_id);
        self.api.get(region, path)
    }

    /// The request for the league entries of a queue, tier and division, one page at a time.
    pub fn get_league_entries<T: WithHosts>(
        &self,
        region: T,
        queue: Queue,
        tier: Tier,
        division: Division,
        parameters: GetLeagueEntriesParams,
    ) -> (r: Result<ApiRequest, RequestError>)
        ensures
            self.api.builds(
                HttpMethod::Get,
                region.host_label(),
                LEAGUE_PATH@ + "/entries/"@ + queue.spec_value() + "/"@ + tier.spec_value() + "/"@ + division.spec_value(),
                form_serialized(league_entries_pairs(parameters)),
                r,
            ),
    {
        let mut path = join3(LEAGUE_PATH, "/entries/", queue.value());
        path.append("/");
        path.append(tier.value());
        path.append("/");
        path.append(division.value());
        let query = league_entries_query(&parameters);
        self.api.get_with_params(region, path, query)
    }
}

} // verus!
