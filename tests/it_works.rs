use lol_api::regions::Platforms;

#[test]
fn riot_api_it_works() {
    assert_eq!(2 + 2, 4);
}

#[test]
fn fetch_it_works() {
    assert_eq!(2 + 2, 4);
}

#[test]
fn lib_it_works() {
    assert_eq!(2 + 2, 4);
    assert_eq!(Platforms::Kr, Platforms::Kr);
}
