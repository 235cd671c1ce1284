use vstd::prelude::*;

use super::paths::MATCH_V4_PATH;
use crate::form::{append_pair, finish_form, form_serialized, form_text, lemma_form_serialized_push, new_form, FormQuery, form_finished};
use crate::regions::WithHosts;
use crate::request::{ApiRequest, HttpMethod, RequestError, RiotApi};
use crate::text::{decimal, decimal_i32, decimal_u64, join3, signed_decimal};

verus! {

/// The optional filters of a matchlist query. Unset filters are left out of
/// the query; list filters give one pair per element.
pub struct GetMatchlistParameters {
    /// Champion IDs.
    pub champions: Option<Vec<i32>>,
    /// Queue IDs.
    pub queues: Option<Vec<u32>>,
    pub end_time: Option<u64>,
    pub begin_time: Option<u64>,
    pub end_index: Option<u64>,
    pub begin_index: Option<u64>,
}

/// One pair per element of a list filter, under the same key.
pub open spec fn repeated_pairs<A>(key: Seq<char>, values: Option<Vec<A>>, render: spec_fn(A) -> Seq<char>) -> Seq<(Seq<char>, Seq<char>)> {
    match values {
        Some(v) => Seq::new(v@.len(), |i: int| (key, render(v@[i]))),
        None => Seq::empty(),
    }
}

/// One pair for a scalar filter when it is set.
pub open spec fn scalar_pair(key: Seq<char>, value: Option<u64>) -> Seq<(Seq<char>, Seq<char>)> {
    match value {
        Some(x) => seq![(key, decimal(x as nat))],
        None => Seq::empty(),
    }
}

/// The query pairs of a matchlist query, in the order of the filters' fields.
pub open spec fn matchlist_pairs(p: GetMatchlistParameters) -> Seq<(Seq<char>, Seq<char>)> {
    repeated_pairs("champion"@, p.champions, |c: i32| signed_decimal(c as int))
        + repeated_pairs("queue"@, p.queues, |q: u32| decimal(q as nat))
        + scalar_pair("endTime"@, p.end_time)
        + scalar_pair("beginTime"@, p.begin_time)
        + scalar_pair("endIndex"@, p.end_index)
        + scalar_pair("beginIndex"@, p.begin_index)
}

/// Appends one pair and extends the ghost record of pairs written.
fn append_recorded(query: &mut FormQuery, Ghost(pairs): Ghost<Seq<(Seq<char>, Seq<char>)>>, name: &str, value: &str)
    requires
        !form_finished(*old(query)),
        form_text(*old(query)) == form_serialized(pairs),
    ensures
        !form_finished(*final(query)),
        form_text(*final(query)) == form_serialized(pairs.push((name@, value@))),
{
    append_pair(query, name, value);
    proof {
        lemma_form_serialized_push(pairs, name@, value@);
    }
}

/// Appends a scalar filter when it is set.
fn append_scalar(query: &mut FormQuery, Ghost(pairs): Ghost<Seq<(Seq<char>, Seq<char>)>>, name: &str, value: Option<u64>)
    requires
        !form_finished(*old(query)),
        form_text(*old(query)) == form_serialized(pairs),
    ensures
        !form_finished(*final(query)),
        form_text(*final(query)) == form_serialized(pairs + scalar_pair(name@, value)),
{
    match value {
        Some(x) => {
            let text = decimal_u64(x);
            append_recorded(query, Ghost(pairs), name, text.as_str());
            assert(pairs.push((name@, text@)) =~= pairs + scalar_pair(name@, value));
        },
        None => {
            assert(pairs + scalar_pair(name@, value) =~= pairs);
        },
    }
}

/// The query string of a matchlist query: champions, queues, end time,
/// begin time, end index and begin index, each left out when unset.
pub fn matchlist_query(parameters: &GetMatchlistParameters) -> (r: String)
    ensures
        r@ == form_serialized(matchlist_pairs(*parameters)),
{
    let mut query = new_form();
    let ghost mut pairs: Seq<(Seq<char>, Seq<char>)> = Seq::empty();
    let ghost champion_render = |c: i32| signed_decimal(c as int);
    let ghost queue_render = |q: u32| decimal(q as nat);
    match &parameters.champions {
        Some(champions) => {
            let mut i: usize = 0;
            while i < champions.len()
                invariant
                    i <= champions@.len(),
                    !form_finished(query),
                    form_text(query) == form_serialized(pairs),
                    pairs =~= Seq::new(i as nat, |j: int| ("champion"@, signed_decimal(champions@[j] as int))),
                decreases champions@.len() - i,
            {
                let text = decimal_i32(champions[i]);
                append_recorded(&mut query, Ghost(pairs), "champion", text.as_str());
                proof {
                    pairs = pairs.push(("champion"@, text@));
                }
                i = i + 1;
            }
        },
        None => {},
    }
    assert(pairs =~= repeated_pairs("champion"@, parameters.champions, champion_render));
    let ghost before_queues = pairs;
    match &parameters.queues {
        Some(queues) => {
            let mut i: usize = 0;
            while i < queues.len()
                invariant
                    i <= queues@.len(),
                    !form_finished(query),
                    form_text(query) == form_serialized(pairs),
                    pairs =~= before_queues + Seq::new(i as nat, |j: int| ("queue"@, decimal(queues@[j] as nat))),
                decreases queues@.len() - i,
            {
                let text = decimal_u64(queues[i] as u64);
                append_recorded(&mut query, Ghost(pairs), "queue", text.as_str());
                proof {
                    pairs = pairs.push(("queue"@, text@));
                }
                i = i + 1;
            }
        },
        None => {},
    }
    assert(pairs =~= before_queues + repeated_pairs("queue"@, parameters.queues, queue_render));
    append_scalar(&mut query, Ghost(pairs), "endTime", parameters.end_time);
    proof {
        pairs = pairs + scalar_pair("endTime"@, parameters.end_time);
    }
    append_scalar(&mut query, Ghost(pairs), "beginTime", parameters.begin_time);
    proof {
        pairs = pairs + scalar_pair("beginTime"@, parameters.begin_time);
    }
    append_scalar(&mut query, Ghost(pairs), "endIndex", parameters.end_index);
    proof {
        pairs = pairs + scalar_pair("endIndex"@, parameters.end_index);
    }
    append_scalar(&mut query, Ghost(pairs), "beginIndex", parameters.begin_index);
    proof {
        pairs = pairs + scalar_pair("beginIndex"@, parameters.begin_index);
    }
    assert(pairs =~= matchlist_pairs(*parameters));
    finish_form(query)
}

/// Match history (match-v4).
pub struct MatchV4<'a> {
    pub api: &'a RiotApi,
}

impl<'a> MatchV4<'a> {
    pub fn new(api: &'a RiotApi) -> (r: Self)
        ensures
            r.api == api,
    {
        MatchV4 { api }
    }

    /// The request for the IDs of the matches played under a tournament code.
    pub fn get_match_ids_by_tournament_code<T: WithHosts>(&self, region: T, tournament_code: &str) -> (r: Result<ApiRequest, RequestError>)
        ensures
            self.api.builds(HttpMethod::Get, region.host_label(), MATCH_V4_PATH@ + "/by-tournament-code/"@ + tournament_code@ + "/ids"@, Seq::empty(), r),
    {
        let mut path = join3(MATCH_V4_PATH, "/by-tournament-code/", tournament_code);
        path.append("/ids");
        self.api.get(region, path)
    }

    /// The request for a match by its ID.
    pub fn get_match<T: WithHosts>(&self, region: T, match_id: &str) -> (r: Result<ApiRequest, RequestError>)
        ensures
            self.api.builds(HttpMethod::Get, region.host_label(), MATCH_V4_PATH@ + "/matches/"@ + match_id@, Seq::empty(), r),
    {
        let path = join3(MATCH_V4_PATH, "/matches/", match_id);
        self.api.get(region, path)
    }

    /// The request for a match by its ID and tournament code.
    pub fn get_match_by_tournament_code<T: WithHosts>(&self, region: T, match_id: &str, tournament_code: &str) -> (r: Result<ApiRequest, RequestError>)
        ensures
            self.api.builds(
                HttpMethod::Get,
                region.host_label(),
                MATCH_V4_PATH@ + "/matches/"@ + match_id@ + "/by-tournament-code/"@ + tournament_code@,
                Seq::empty(),
                r,
            ),
    {
        let mut path = join3(MATCH_V4_PATH, "/matches/", match_id);
        path.append("/by-tournament-code/");
        path.append(tournament_code);
        self.api.get(region, path)
    }

    /// The request for the matchlist of an account, filtered by the parameters that are set.
    pub fn get_matchlist<T: WithHosts>(&self, region: T, encrypted_account_id: &str, parameters: GetMatchlistParameters) -> (r: Result<ApiRequest, RequestError>)
        ensures
            self.api.builds(
                HttpMethod::Get,
                region.host_label(),
                MATCH_V4_PATH@ + "/matchlists/by-account/"@ + encrypted_account_id@,
                form_serialized(matchlist_pairs(parameters)),
                r,
            ),
    {
        let path = join3(MATCH_V4_PATH, "/matchlists/by-account/", encrypted_account_id);
        let query = matchlist_query(&parameters);
        self.api.get_with_params(region, path, query)
    }
}

} // verus!

verus! {

/// Asking twice for the same matchlist, with the same filters, gives the same
/// outcome: both built with the same URI text, or both refused with the same
/// error kind. The query string is a function of the filters, written in the
/// fixed order of their fields.
pub proof fn lemma_matchlist_request_deterministic(
    api: RiotApi,
    label: Seq<char>,
    encrypted_account_id: Seq<char>,
    parameters: GetMatchlistParameters,
    first: Result<ApiRequest, RequestError>,
    second: Result<ApiRequest, RequestError>,
)
    requires
        api.builds(HttpMethod::Get, label, MATCH_V4_PATH@ + "/matchlists/by-account/"@ + encrypted_account_id, form_serialized(matchlist_pairs(parameters)), first),
        api.builds(HttpMethod::Get, label, MATCH_V4_PATH@ + "/matchlists/by-account/"@ + encrypted_account_id, form_serialized(matchlist_pairs(parameters)), second),
    ensures
        first is Ok <==> second is Ok,
        first is Ok ==> first->Ok_0.uri_text@ == second->Ok_0.uri_text@,
        first is Err ==> (first->Err_0 is InvalidUri <==> second->Err_0 is InvalidUri),
{
}

} // verus!

verus! {

/// Two filter sets with the same values, element for element, give the same
/// query string: nothing but the values and the fixed order of the fields
/// decides it.
pub proof fn lemma_matchlist_query_same_values(first: GetMatchlistParameters, second: GetMatchlistParameters)
    requires
        first.champions is Some <==> second.champions is Some,
        first.champions is Some ==> first.champions->Some_0@ == second.champions->Some_0@,
        first.queues is Some <==> second.queues is Some,
        first.queues is Some ==> first.queues->Some_0@ == second.queues->Some_0@,
        first.end_time == second.end_time,
        first.begin_time == second.begin_time,
        first.end_index == second.end_index,
        first.begin_index == second.begin_index,
    ensures
        form_serialized(matchlist_pairs(first)) == form_serialized(matchlist_pairs(second)),
{
    assert(matchlist_pairs(first) =~= matchlist_pairs(second));
}

} // verus!
