use stenbug::config::{Config, Search, System};
use stenbug::control::{App, Directive, Event};
use stenbug::response::{parse_response, ResultPage};

fn config_with_query(query: &str, categories: &str) -> Config {
    Config {
        system: System { duration_secs: 60 },
        search: Search {
            query: query.to_string(),
            categories: categories.to_string(),
            purity: String::new(),
            sorting: String::new(),
            order: String::new(),
            top_range: String::new(),
            at_least: String::new(),
            resolutions: String::new(),
            ratios: String::new(),
            colors: String::new(),
            api_key: String::new(),
        },
    }
}

fn page(paths: &[&str], last_page: u64) -> ResultPage {
    ResultPage { paths: paths.iter().map(|p| p.to_string()).collect(), last_page }
}

#[test]
fn new_app_starts_unresolved_and_running() {
    let app = App::new(Config::default());
    assert_eq!(app.list.pages, 1);
    assert_eq!(app.list.content.len(), 0);
    assert!(app.running);
}

#[test]
fn pagination_resets_on_config_change() {
    let mut app = App::new(config_with_query("mountain", "111"));
    let warn = app.absorb_response(page(&["a.jpg"], 7));
    assert!(!warn);
    assert_eq!(app.list.pages, 7);

    // An unchanged snapshot keeps the resolved page count.
    let changed = app.sync_config(config_with_query("mountain", "111"));
    assert!(!changed);
    assert_eq!(app.list.pages, 7);

    // A snapshot that differs in one field resets it to the sentinel, so the
    // next request asks for the default page again.
    let changed = app.sync_config(config_with_query("sea", "111"));
    assert!(changed);
    assert_eq!(app.list.pages, 1);
    assert_eq!(app.select_page(), None);
    assert!(!app.build_request().contains("&page="));
}

#[test]
fn selected_pages_stay_within_known_count() {
    let mut app = App::new(config_with_query("mountain", "111"));
    app.absorb_response(page(&["a.jpg"], 5));
    assert_eq!(app.list.pages, 5);
    for _ in 0..200 {
        match app.select_page() {
            Some(k) => assert!(1 <= k && k <= 5),
            None => panic!("a resolved count above 1 always names a page"),
        }
    }
}

#[test]
fn single_page_count_always_uses_default_page() {
    let mut app = App::new(config_with_query("mountain", "111"));
    app.absorb_response(page(&["a.jpg"], 1));
    assert_eq!(app.list.pages, 1);
    assert_eq!(app.select_page(), None);
}

#[test]
fn zero_page_report_collapses_to_sentinel() {
    let mut app = App::new(config_with_query("mountain", "111"));
    let warn = app.absorb_response(page(&[], 0));
    assert!(warn);
    assert_eq!(app.list.pages, 1);
}

#[test]
fn empty_result_warns_and_applies_nothing() {
    let mut app = App::new(config_with_query("mountain", "111"));
    let warn = app.absorb_response(page(&[], 4));
    assert!(warn);
    assert_eq!(app.pick_image(), None);
}

#[test]
fn refresh_cycles_end_to_end() {
    let mut app = App::new(config_with_query("mountain", "111"));

    // First cycle: the page count is unresolved, so no page is named.
    let url = app.build_request();
    assert_eq!(url, "https://wallhaven.cc/api/v1/search?&q=mountain&categories=111");

    let body = "{\"data\":[{\"path\":\"a.jpg\"},{\"path\":\"b.jpg\"}],\"meta\":{\"last_page\":5}}";
    let result = match parse_response(body) {
        Ok(r) => r,
        Err(_) => panic!("a well-formed response must parse"),
    };
    let warn = app.absorb_response(result);
    assert!(!warn);
    assert_eq!(app.list.pages, 5);

    let picked = app.pick_image().expect("a non-empty page yields an image");
    assert!(picked == "a.jpg" || picked == "b.jpg");

    // Second cycle, same configuration: a page within [1, 5] is requested.
    let url2 = app.build_request();
    let prefix = "https://wallhaven.cc/api/v1/search?&q=mountain&categories=111&page=";
    assert!(url2.starts_with(prefix));
    let k: u64 = url2[prefix.len()..].parse().expect("a numeric page");
    assert!(1 <= k && k <= 5);

    // A later response under the same configuration does not move the
    // already-resolved page count.
    let warn = app.absorb_response(page(&["c.jpg"], 9));
    assert!(!warn);
    assert_eq!(app.list.pages, 5);
}

#[test]
fn events_map_to_their_directives() {
    let mut app = App::new(Config::default());
    assert_eq!(app.step(&Event::RefreshWallpaper), Directive::StartCycle);
    assert!(app.running);
    assert_eq!(app.step(&Event::OpenConfig), Directive::OpenEditor);
    assert!(app.running);
    assert_eq!(app.step(&Event::Quit), Directive::Stop);
    assert!(!app.running);
}

#[test]
fn pending_cycle_completes_before_quit() {
    let mut app = App::new(Config::default());
    let events = vec![Event::RefreshWallpaper, Event::Quit, Event::RefreshWallpaper];
    let directives = app.run_script(&events);
    assert_eq!(directives, vec![Directive::StartCycle, Directive::Stop]);
    assert!(!app.running);
}

#[test]
fn quit_first_stops_everything() {
    let mut app = App::new(Config::default());
    let events = vec![Event::Quit, Event::RefreshWallpaper, Event::OpenConfig];
    let directives = app.run_script(&events);
    assert_eq!(directives, vec![Directive::Stop]);
    assert!(!app.running);
}

#[test]
fn without_quit_every_event_is_handled() {
    let mut app = App::new(Config::default());
    let events = vec![Event::RefreshWallpaper, Event::OpenConfig, Event::RefreshWallpaper];
    let directives = app.run_script(&events);
    assert_eq!(
        directives,
        vec![Directive::StartCycle, Directive::OpenEditor, Directive::StartCycle]
    );
    assert!(app.running);
}
