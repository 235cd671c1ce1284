use vstd::prelude::*;

use super::paths::CHAMPION_ROTATIONS_PATH;
use crate::regions::WithHosts;
use crate::request::{ApiRequest, HttpMethod, RequestError, RiotApi};

verus! {

/// Champion rotations (champion-v3).
pub struct ChampionV3<'a> {
    pub api: &'a RiotApi,
}

impl<'a> ChampionV3<'a> {
    pub fn new(api: &'a RiotApi) -> (r: Self)
        ensures
            r.api == api,
    {
        ChampionV3 { api }
    }

    /// The request for the current champion rotations, including the
    /// free-to-play rotation for new players.
    pub fn get_champion_info<T: WithHosts>(&self, region: T) -> (r: Result<ApiRequest, RequestError>)
        ensures
            self.api.builds(HttpMethod::Get, region.host_label(), CHAMPION_ROTATIONS_PATH@, Seq::empty(), r),
    {
        self.api.get(region, CHAMPION_ROTATIONS_PATH.to_owned())
    }
}

} // verus!
