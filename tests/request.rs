use lol_api::endpoints::{GetLeagueEntriesParams, GetMatchlistParameters};
use lol_api::constants::{Division, Queue, Tier};
use lol_api::regions::{Platforms, Regions};
use lol_api::request::{HttpMethod, RequestError, RiotApi, RustApiConfig};

fn api() -> RiotApi {
    RiotApi::new(RustApiConfig::new("RGAPI-test-key".to_string(), None))
}

#[test]
fn default_and_custom_host() {
    assert_eq!(RustApiConfig::new("k".to_string(), None).api_host, "api.riotgames.com");
    assert_eq!(
        RustApiConfig::new("k".to_string(), Some("example.test".to_string())).api_host,
        "example.test"
    );
}

#[test]
fn summoner_by_name_uri() {
    let api = api();
    let req = api.summoner_v4().get_by_summoner_name(Platforms::Kr, "Faker").unwrap();
    assert_eq!(req.uri_text, "https://kr.api.riotgames.com/lol/summoner/v4/summoners/by-name/Faker");
    assert_eq!(req.uri.to_string(), req.uri_text);
    assert_eq!(req.method, HttpMethod::Get);
    assert_eq!(req.token.unwrap().to_str().unwrap(), "RGAPI-test-key");
}

#[test]
fn uri_with_query_reconstructs() {
    let api = api();
    let params = GetMatchlistParameters {
        champions: Some(vec![1, 2]),
        queues: Some(vec![420]),
        end_time: None,
        begin_time: None,
        end_index: None,
        begin_index: None,
    };
    let req = api.match_v4().get_matchlist(Platforms::Euw1, "acc", params).unwrap();
    assert_eq!(
        req.uri_text,
        "https://euw1.api.riotgames.com/lol/match/v4/matchlists/by-account/acc?champion=1&champion=2&queue=420"
    );
    assert_eq!(req.uri.to_string(), req.uri_text);
    assert_eq!(req.uri.query(), Some("champion=1&champion=2&queue=420"));
}

#[test]
fn same_call_same_uri() {
    let api = api();
    let make = || GetMatchlistParameters {
        champions: Some(vec![5, 6]),
        queues: Some(vec![420, 440]),
        end_time: Some(10),
        begin_time: None,
        end_index: None,
        begin_index: Some(1),
    };
    let a = api.match_v4().get_matchlist(Regions::Europe, "x", make()).unwrap();
    let b = api.match_v4().get_matchlist(Regions::Europe, "x", make()).unwrap();
    assert_eq!(a.uri_text, b.uri_text);
    assert_eq!(a.uri, b.uri);
}

#[test]
fn endpoint_paths() {
    let api = api();
    let kr = Platforms::Kr;
    let base = "https://kr.api.riotgames.com";
    let cases = vec![
        (api.summoner_v4().get_by_account_id(kr, "a1"), "/lol/summoner/v4/summoners/by-account/a1"),
        (api.summoner_v4().get_by_puuid(kr, "p1"), "/lol/summoner/v4/summoners/by-puuid/p1"),
        (api.summoner_v4().get_by_summoner_id(kr, "s1"), "/lol/summoner/v4/summoners/s1"),
        (api.champion_v3().get_champion_info(kr), "/lol/platform/v3/champion-rotations"),
        (
            api.champion_mastery_v4().get_all_champion_masteries(kr, "s1"),
            "/lol/champion-mastery/v4/champion-masteries/by-summoner/s1",
        ),
        (
            api.champion_mastery_v4().get_champion_mastery(kr, "s1", 266),
            "/lol/champion-mastery/v4/champion-masteries/by-summoner/s1/by-champion/266",
        ),
        (
            api.champion_mastery_v4().get_champion_mastery_score(kr, "s1"),
            "/lol/champion-mastery/v4/scores/by-summoner/s1",
        ),
        (
            api.league_v4().get_challenger_league(kr, Queue::RankedSolo5x5),
            "/lol/league/v4/challengerleagues/by-queue/RANKED_SOLO_5x5",
        ),
        (
            api.league_v4().get_grandmaster_league(kr, Queue::RankedFlexSr),
            "/lol/league/v4/grandmasterleagues/by-queue/RANKED_FLEX_SR",
        ),
        (
            api.league_v4().get_master_league(kr, Queue::RankedTft),
            "/lol/league/v4/masterleagues/by-queue/RANKED_TFT",
        ),
        (api.league_v4().get_league_by_id(kr, "L1"), "/lol/league/v4/leagues/L1"),
        (
            api.league_v4().get_league_entries_for_summoner(kr, "s1"),
            "/lol/league/v4/entries/by-summoner/s1",
        ),
        (
            api.league_v4().get_league_entries(
                kr,
                Queue::RankedSolo5x5,
                Tier::Diamond,
                Division::II,
                GetLeagueEntriesParams { page: Some(3) },
            ),
            "/lol/league/v4/entries/RANKED_SOLO_5x5/DIAMOND/II?page=3",
        ),
        (
            api.match_v4().get_match_ids_by_tournament_code(kr, "T1"),
            "/lol/match/v4/by-tournament-code/T1/ids",
        ),
        (api.match_v4().get_match(kr, "42"), "/lol/match/v4/matches/42"),
        (
            api.match_v4().get_match_by_tournament_code(kr, "42", "T1"),
            "/lol/match/v4/matches/42/by-tournament-code/T1",
        ),
    ];
    for (req, path) in cases {
        let req = req.unwrap();
        assert_eq!(req.uri_text, format!("{}{}", base, path));
        assert_eq!(req.uri.to_string(), req.uri_text);
    }
}

#[test]
fn invalid_api_key_is_refused() {
    let api = RiotApi::new(RustApiConfig::new("bad\nkey".to_string(), None));
    let r = api.summoner_v4().get_by_summoner_name(Platforms::Na1, "x");
    assert!(matches!(r, Err(RequestError::InvalidApiKey)));
    let api = RiotApi::new(RustApiConfig::new("del\u{7f}".to_string(), None));
    assert!(matches!(api.champion_v3().get_champion_info(Platforms::Na1), Err(RequestError::InvalidApiKey)));
    // A tab and non-ASCII text may stand in a header value.
    let api = RiotApi::new(RustApiConfig::new("a\tb\u{e9}".to_string(), None));
    assert!(api.champion_v3().get_champion_info(Platforms::Na1).is_ok());
}

#[test]
fn invalid_uri_is_refused() {
    let api = api();
    let r = api.summoner_v4().get_by_summoner_name(Platforms::Kr, "two words");
    match r {
        Err(RequestError::InvalidUri { uri }) => {
            assert_eq!(uri, "https://kr.api.riotgames.com/lol/summoner/v4/summoners/by-name/two words")
        }
        _ => panic!("expected an invalid URI"),
    }
}

#[test]
fn uri_error_comes_before_key_error() {
    let api = RiotApi::new(RustApiConfig::new("bad\nkey".to_string(), None));
    let r = api.summoner_v4().get_by_summoner_name(Platforms::Kr, "a b");
    assert!(matches!(r, Err(RequestError::InvalidUri { .. })));
}

#[test]
fn forge_uri_without_query_has_no_question_mark() {
    let api = api();
    assert_eq!(api.forge_uri(&Regions::Asia, "/p", ""), "https://asia.api.riotgames.com/p");
    assert_eq!(api.forge_uri(&Regions::Asia, "/p", "a=1"), "https://asia.api.riotgames.com/p?a=1");
}

#[test]
fn checked_config_refuses_bad_key_at_once() {
    assert!(matches!(RustApiConfig::try_new("bad\rkey".to_string(), None), Err(RequestError::InvalidApiKey)));
    let config = RustApiConfig::try_new("good".to_string(), None).unwrap();
    assert_eq!(config.api_host, "api.riotgames.com");
    assert_eq!(config.api_key, "good");
}
