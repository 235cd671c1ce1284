use lol_api::api::{get_champion_mastery_path, Api, ChampionApi, ChampionMasteryApi, LeagueApi, SummonerApi};
use lol_api::constants::{Queue, Rank, Tier};
use lol_api::regions::Platforms;
use lol_api::request::{RiotApi, RustApiConfig};

fn euw() -> Api<Platforms> {
    Api::new(RiotApi::new(RustApiConfig::new("key".to_string(), None)), Platforms::Euw1)
}

const BASE: &str = "https://euw1.api.riotgames.com";

#[test]
fn mastery_path() {
    assert_eq!(
        get_champion_mastery_path("/by-summoner/", "abc"),
        "/lol/champion-mastery/v4/champion-masteries/by-summoner/abc"
    );
}

#[test]
fn bound_mastery_requests() {
    let api = euw();
    let m = ChampionMasteryApi::new(&api);
    assert_eq!(
        m.by_summoner_id("s").unwrap().uri_text,
        format!("{}/lol/champion-mastery/v4/champion-masteries/by-summoner/s", BASE)
    );
    assert_eq!(
        m.by_champion_id("s", 7).unwrap().uri_text,
        format!("{}/lol/champion-mastery/v4/champion-masteries/by-summoner/s/by-champion/7", BASE)
    );
    assert_eq!(
        m.total_score("s").unwrap().uri_text,
        format!("{}/lol/champion-mastery/v4/scores/by-summoner/s", BASE)
    );
}

#[test]
fn bound_league_requests() {
    let api = euw();
    let l = LeagueApi::new(&api);
    assert_eq!(
        l.challenger_leagues_by_queue(Queue::RankedSolo5x5).unwrap().uri_text,
        format!("{}/lol/league/v4/challengerleagues/by-queue/RANKED_SOLO_5x5", BASE)
    );
    assert_eq!(
        l.grandmaster_leagues_by_queue(Queue::RankedTft).unwrap().uri_text,
        format!("{}/lol/league/v4/grandmasterleagues/by-queue/RANKED_TFT", BASE)
    );
    assert_eq!(
        l.master_leagues_by_queue(Queue::RankedFlexIt).unwrap().uri_text,
        format!("{}/lol/league/v4/masterleagues/by-queue/RANKED_FLEX_IT", BASE)
    );
    assert_eq!(l.leagues_by_id("L").unwrap().uri_text, format!("{}/lol/league/v4/leagues/L", BASE));
    assert_eq!(
        l.entries_by_summoner_id("s").unwrap().uri_text,
        format!("{}/lol/league/v4/entries/by-summoner/s", BASE)
    );
    assert_eq!(
        l.entries(Queue::RankedSolo5x5, Tier::Gold, Rank::IV).unwrap().uri_text,
        format!("{}/lol/league/v4/entries/RANKED_SOLO_5x5/GOLD/IV", BASE)
    );
}

#[test]
fn bound_summoner_and_champion_requests() {
    let api = euw();
    let s = SummonerApi::new(&api);
    assert_eq!(
        s.by_name("Faker").unwrap().uri_text,
        format!("{}/lol/summoner/v4/summoners/by-name/Faker", BASE)
    );
    assert_eq!(
        s.by_account_id("a").unwrap().uri_text,
        format!("{}/lol/summoner/v4/summoners/by-account/a", BASE)
    );
    assert_eq!(s.by_puuid("p").unwrap().uri_text, format!("{}/lol/summoner/v4/summoners/by-puuid/p", BASE));
    assert_eq!(s.by_summoner_id("i").unwrap().uri_text, format!("{}/lol/summoner/v4/summoners/i", BASE));
    let c = ChampionApi::new(&api);
    assert_eq!(c.rotations().unwrap().uri_text, format!("{}/lol/platform/v3/champion-rotations", BASE));
}
