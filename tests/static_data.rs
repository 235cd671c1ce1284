use lol_api::static_data::{ConstantEnum, FetchApi, FetchApiConfig, Season, SeasonList, ToDescriptor};

#[test]
fn seasons_descriptor() {
    let list = SeasonList {
        items: vec![
            Season { id: 0, season: "PRESEASON 3".to_string() },
            Season { id: 13, season: "SEASON 2019".to_string() },
        ],
    };
    let d = list.descriptor();
    assert_eq!(d.name, "seasons");
    assert_eq!(
        d.enums,
        vec![
            ConstantEnum { key: "PRESEASON 3".to_string(), value: "PRESEASON 3".to_string() },
            ConstantEnum { key: "SEASON 2019".to_string(), value: "SEASON 2019".to_string() },
        ]
    );
    assert!(SeasonList { items: vec![] }.descriptor().enums.is_empty());
}

#[test]
fn static_requests() {
    let api = FetchApi::new(FetchApiConfig::new(None));
    let req = api.constants().get_seasons().unwrap();
    assert_eq!(req.uri_text, "https://static.developer.riotgames.com/docs/lol/seasons.json");
    assert_eq!(req.uri.to_string(), req.uri_text);
    assert!(req.token.is_none());
    let custom = FetchApi::new(FetchApiConfig::new(Some("example.test".to_string())));
    assert_eq!(
        custom.get_with_params("maps.json".to_string(), "a=1".to_string()).unwrap().uri_text,
        "https://example.test/docs/lol/maps.json?a=1"
    );
}
