use lol_api::regions::Platforms;
use lol_api::request::{RiotApi, RustApiConfig};
use lol_api::response::{check_status, handle_response, FetchError};

const SUMMONER: &str = r#"{"profileIconId":6,"name":"Faker","puuid":"p","summonerLevel":300,"revisionDate":1600000000000,"id":"i","accountId":"a"}"#;

#[test]
fn success_with_json_decodes() {
    let v = handle_response(200, SUMMONER.as_bytes()).unwrap();
    assert_eq!(v["name"], "Faker");
    assert_eq!(v["summonerLevel"], 300);
}

#[test]
fn error_statuses_skip_the_body() {
    match handle_response(404, SUMMONER.as_bytes()) {
        Err(FetchError::Status(404)) => {}
        other => panic!("unexpected {:?}", other),
    }
    match handle_response(500, b"not json") {
        Err(FetchError::Status(500)) => {}
        other => panic!("unexpected {:?}", other),
    }
    match handle_response(199, b"{}") {
        Err(FetchError::Status(199)) => {}
        other => panic!("unexpected {:?}", other),
    }
    match handle_response(300, b"{}") {
        Err(FetchError::Status(300)) => {}
        other => panic!("unexpected {:?}", other),
    }
}

#[test]
fn success_with_invalid_json_is_a_decode_error() {
    match handle_response(200, b"{\"name\": ") {
        Err(FetchError::Json(_)) => {}
        other => panic!("unexpected {:?}", other),
    }
    match handle_response(204, b"") {
        Err(FetchError::Json(_)) => {}
        other => panic!("unexpected {:?}", other),
    }
    assert!(handle_response(299, b"[1,2]").is_ok());
}

#[test]
fn status_range() {
    assert!(check_status(200).is_ok());
    assert!(check_status(299).is_ok());
    assert!(matches!(check_status(429), Err(FetchError::Status(429))));
    assert!(matches!(check_status(0), Err(FetchError::Status(0))));
}

#[test]
fn json_errors_convert() {
    let err = serde_json::from_str::<serde_json::Value>("{").unwrap_err();
    assert!(matches!(FetchError::from(err), FetchError::Json(_)));
}

#[test]
fn faker_end_to_end() {
    let api = RiotApi::new(RustApiConfig::new("key".to_string(), None));
    let req = api.summoner_v4().get_by_summoner_name(Platforms::Kr, "Faker").unwrap();
    assert_eq!(req.uri_text, "https://kr.api.riotgames.com/lol/summoner/v4/summoners/by-name/Faker");
    let record = handle_response(200, SUMMONER.as_bytes()).unwrap();
    assert_eq!(record["name"].as_str(), Some("Faker"));
}
