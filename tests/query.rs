use lol_api::endpoints::{league_entries_query, matchlist_query, GetLeagueEntriesParams, GetMatchlistParameters};

fn no_filters() -> GetMatchlistParameters {
    GetMatchlistParameters {
        champions: None,
        queues: None,
        end_time: None,
        begin_time: None,
        end_index: None,
        begin_index: None,
    }
}

#[test]
fn matchlist_champions_and_queue() {
    let mut p = no_filters();
    p.champions = Some(vec![1, 2]);
    p.queues = Some(vec![420]);
    let q = matchlist_query(&p);
    assert_eq!(q, "champion=1&champion=2&queue=420");
    assert_eq!(q.matches("champion=").count(), 2);
    assert_eq!(q.matches("queue=420").count(), 1);
}

#[test]
fn matchlist_all_filters_in_field_order() {
    let p = GetMatchlistParameters {
        champions: Some(vec![-7]),
        queues: Some(vec![440, 450]),
        end_time: Some(1_600_000_000_000),
        begin_time: Some(1_500_000_000_000),
        end_index: Some(100),
        begin_index: Some(0),
    };
    assert_eq!(
        matchlist_query(&p),
        "champion=-7&queue=440&queue=450&endTime=1600000000000&beginTime=1500000000000&endIndex=100&beginIndex=0"
    );
}

#[test]
fn matchlist_unset_and_empty_filters() {
    assert_eq!(matchlist_query(&no_filters()), "");
    let mut p = no_filters();
    p.champions = Some(vec![]);
    p.begin_index = Some(u64::MAX);
    assert_eq!(matchlist_query(&p), "beginIndex=18446744073709551615");
}

#[test]
fn matchlist_query_is_deterministic() {
    let mut p = no_filters();
    p.champions = Some(vec![3, 1, 2]);
    p.queues = Some(vec![420]);
    let a = matchlist_query(&p);
    let b = matchlist_query(&p);
    assert_eq!(a, b);
    assert_eq!(a, "champion=3&champion=1&champion=2&queue=420");
}

#[test]
fn league_entries_page() {
    assert_eq!(league_entries_query(&GetLeagueEntriesParams { page: Some(2) }), "page=2");
    assert_eq!(league_entries_query(&GetLeagueEntriesParams { page: None }), "");
}
