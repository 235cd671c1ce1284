//! Endpoint families bound to one routing value: each call goes to the host
//! that the client's routing value selects.

mod champion;
mod champion_mastery;
mod league;
mod summoner;

pub use self::champion::ChampionApi;
pub use self::champion_mastery::{get_champion_mastery_path, ChampionMasteryApi};
pub use self::league::LeagueApi;
pub use self::summoner::SummonerApi;

use vstd::prelude::*;

use crate::regions::WithHosts;
use crate::request::{ApiRequest, HttpMethod, RequestError, RiotApi};

verus! {

/// A client bound to one routing value.
pub struct Api<T> {
    pub client: RiotApi,
    pub region: T,
}

impl<T: WithHosts + Copy> Api<T> {
    pub fn new(client: RiotApi, region: T) -> (r: Self)
        ensures
            r.client == client,
            r.region == region,
    {
        Api { client, region }
    }

    /// The GET request for a path on this client's host.
    pub fn client_request(&self, path: String) -> (r: Result<ApiRequest, RequestError>)
        ensures
            self.client.builds(HttpMethod::Get, self.region.host_label(), path@, Seq::empty(), r),
    {
        self.client.get(self.region, path)
    }
}

} // verus!
