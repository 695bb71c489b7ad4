use stenbug::config::{Config, Search};
use stenbug::numfmt::u64_to_string;
use stenbug::query::{build_request_url, build_search_query};

fn empty_search() -> Search {
    Search {
        query: String::new(),
        categories: String::new(),
        purity: String::new(),
        sorting: String::new(),
        order: String::new(),
        top_range: String::new(),
        at_least: String::new(),
        resolutions: String::new(),
        ratios: String::new(),
        colors: String::new(),
        api_key: String::new(),
    }
}

const BASE: &str = "https://wallhaven.cc/api/v1/search?";

#[test]
fn empty_search_yields_bare_endpoint() {
    let s = empty_search();
    assert_eq!(build_search_query(&s), BASE);
}

#[test]
fn single_param_yields_exactly_one_pair() {
    let mut s = empty_search();
    s.categories = "111".to_string();
    assert_eq!(
        build_search_query(&s),
        "https://wallhaven.cc/api/v1/search?&categories=111"
    );

    let mut s = empty_search();
    s.query = "mountain".to_string();
    assert_eq!(
        build_search_query(&s),
        "https://wallhaven.cc/api/v1/search?&q=mountain"
    );

    let mut s = empty_search();
    s.api_key = "k".to_string();
    assert_eq!(
        build_search_query(&s),
        "https://wallhaven.cc/api/v1/search?&apikey=k"
    );
}

#[test]
fn default_config_query_lists_every_default_parameter() {
    let c = Config::default();
    assert_eq!(
        build_search_query(&c.search),
        "https://wallhaven.cc/api/v1/search?&q=+landscape +mountain&categories=111&purity=100\
         &sorting=date_added&order=desc&topRange=1M&atleast=1920x1080"
    );
}

#[test]
fn page_number_appended_when_chosen() {
    let mut s = empty_search();
    s.query = "sea".to_string();
    assert_eq!(
        build_request_url(&s, Some(7)),
        "https://wallhaven.cc/api/v1/search?&q=sea&page=7"
    );
    assert_eq!(
        build_request_url(&s, None),
        "https://wallhaven.cc/api/v1/search?&q=sea"
    );
}

#[test]
fn decimal_rendering_is_exact() {
    assert_eq!(u64_to_string(0), "0");
    assert_eq!(u64_to_string(5), "5");
    assert_eq!(u64_to_string(10), "10");
    assert_eq!(u64_to_string(305), "305");
    assert_eq!(u64_to_string(18446744073709551615), "18446744073709551615");
}
