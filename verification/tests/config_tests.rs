use stenbug::config::{Config, Search, System};
use stenbug::control::App;

fn sample_config() -> Config {
    Config {
        system: System { duration_secs: 60 },
        search: Search {
            query: "mountain".to_string(),
            categories: "111".to_string(),
            purity: "100".to_string(),
            sorting: "views".to_string(),
            order: "asc".to_string(),
            top_range: "1w".to_string(),
            at_least: "800x600".to_string(),
            resolutions: "1920x1080".to_string(),
            ratios: "16x9".to_string(),
            colors: "0066cc".to_string(),
            api_key: "k".to_string(),
        },
    }
}

#[test]
fn defaults_match_documented_values() {
    let c = Config::default();
    assert_eq!(c.system.duration_secs, 3600);
    assert_eq!(c.search.query, "+landscape +mountain");
    assert_eq!(c.search.categories, "111");
    assert_eq!(c.search.purity, "100");
    assert_eq!(c.search.sorting, "date_added");
    assert_eq!(c.search.order, "desc");
    assert_eq!(c.search.top_range, "1M");
    assert_eq!(c.search.at_least, "1920x1080");
    assert_eq!(c.search.resolutions, "");
    assert_eq!(c.search.ratios, "");
    assert_eq!(c.search.colors, "");
    assert_eq!(c.search.api_key, "");
}

#[test]
fn identical_snapshots_compare_equal() {
    let a = sample_config();
    let b = sample_config();
    assert!(a.eq_fields(&b));
    let app = App::new(a);
    assert!(!app.config_changed(&b));
}

#[test]
fn one_changed_search_field_is_detected() {
    let a = sample_config();
    let mut b = sample_config();
    b.search.colors = "660000".to_string();
    assert!(!a.eq_fields(&b));
    let app = App::new(a);
    assert!(app.config_changed(&b));
}

#[test]
fn changed_interval_is_detected() {
    let a = sample_config();
    let mut b = sample_config();
    b.system.duration_secs = 61;
    assert!(!a.eq_fields(&b));
}

#[test]
fn same_document_loads_to_equal_values() {
    let doc = "[system]\nduration = 60\n\n[search]\nquery = \"mountain\"\ncategories = \"111\"\n";
    let one: toml::Value = toml::from_str(doc).unwrap();
    let two: toml::Value = toml::from_str(doc).unwrap();
    assert_eq!(one, two);

    let a = sample_config();
    let b = sample_config();
    assert!(a.eq_fields(&b));
}
