use vstd::prelude::*;

use crate::endpoints::paths::CHAMPION_ROTATIONS_PATH;
use crate::api::Api;
use crate::regions::WithHosts;
use crate::request::{ApiRequest, HttpMethod, RequestError};

verus! {

/// Champion rotations on the client's host.
pub struct ChampionApi<'a, T> {
    pub api: &'a Api<T>,
}

impl<'a, T: WithHosts + Copy> ChampionApi<'a, T> {
    pub fn new(api: &'a Api<T>) -> (r: Self)
        ensures
            r.api == api,
    {
        ChampionApi { api }
    }

    /// The request for the current champion rotations.
    pub fn rotations(&self) -> (r: Result<ApiRequest, RequestError>)
        ensures
            self.api.client.builds(HttpMethod::Get, self.api.region.host_label(), CHAMPION_ROTATIONS_PATH@, Seq::empty(), r),
    {
        let path = CHAMPION_ROTATIONS_PATH.to_owned();
        self.api.client_request(path)
    }
}

} // verus!
