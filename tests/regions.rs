use lol_api::regions::{Platforms, Regions, WithHosts};

const BASE: &str = "api.riotgames.com";

#[test]
fn region_hosts() {
    assert_eq!(Regions::Americas.host(BASE), "americas.api.riotgames.com");
    assert_eq!(Regions::Asia.host(BASE), "asia.api.riotgames.com");
    assert_eq!(Regions::Europe.host(BASE), "europe.api.riotgames.com");
}

#[test]
fn platform_hosts() {
    let expected = [
        (Platforms::Br1, "br1"),
        (Platforms::Eun1, "eun1"),
        (Platforms::Euw1, "euw1"),
        (Platforms::Jp1, "jp1"),
        (Platforms::Kr, "kr"),
        (Platforms::La1, "la1"),
        (Platforms::La2, "la2"),
        (Platforms::Na1, "na1"),
        (Platforms::Oc1, "oc1"),
        (Platforms::Tr1, "tr1"),
        (Platforms::Ru, "ru"),
    ];
    for (platform, label) in expected.iter() {
        let host = platform.host(BASE);
        assert_eq!(host, format!("{}.{}", label, BASE));
        // The label adds exactly one dot.
        let dots = host.matches('.').count();
        assert_eq!(dots, BASE.matches('.').count() + 1);
    }
}

#[test]
fn host_on_empty_and_custom_base() {
    assert_eq!(Platforms::Kr.host(""), "kr.");
    assert_eq!(Regions::Europe.host("example.test"), "europe.example.test");
}
