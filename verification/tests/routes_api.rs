//! Route descriptors, the help page, and the outbound API URL building.

use gnomelab::{
    api_query_url, build_help_page_html, default_description, default_help_order,
    expand_run_paths, find_endpoint, merge_params, proxy_endpoint_url, route_prefix,
    sort_routes_by_help_order, ApiEndpointConfig, RouteFunction, RouteMeta,
};

fn meta(route: &str, title: &str, desc: &str, help_order: i32, auth_level: i32) -> RouteMeta {
    RouteMeta {
        route: route.to_string(),
        title: title.to_string(),
        description: desc.to_string(),
        help_order,
        template_num: 0,
        auth_level,
    }
}

#[test]
fn route_defaults() {
    assert_eq!(
        default_description(),
        "No description, please set one for this route in /json_routes"
    );
    assert_eq!(default_help_order(), 256);
    assert_eq!(route_prefix(0), "");
    assert_eq!(route_prefix(1), "/protected");
}

/// The help page escapes route, title, and description, and prefixes
/// protected routes.
#[test]
fn help_page_rendering() {
    let routes = vec![
        RouteFunction::NormalPage {
            meta: meta("/status", "Jobs <now>", "a & b", 1, 0),
            body: "hello".to_string(),
        },
        RouteFunction::HelpPage {
            meta: meta("/kill", "Stop", "stops a job", 2, 1),
        },
    ];
    let html = build_help_page_html(routes);
    assert_eq!(
        html,
        "<h3>Help Page</h3>\n<ul>\n    <li><a href=\"&#x2F;status\">Jobs &lt;now&gt;</a>: a &amp; b</li>\n    <li><a href=\"/protected&#x2F;kill\">Stop</a>: stops a job</li>\n</ul>\n"
    );
}

#[test]
fn sort_by_help_order() {
    let routes = vec![
        RouteFunction::NormalPage {
            meta: meta("/c", "c", "d", 30, 0),
            body: String::new(),
        },
        RouteFunction::NormalPage {
            meta: meta("/a", "a", "d", 10, 0),
            body: String::new(),
        },
        RouteFunction::NormalPage {
            meta: meta("/b", "b", "d", 20, 0),
            body: String::new(),
        },
    ];
    let sorted = sort_routes_by_help_order(routes);
    let orders: Vec<i32> = sorted.iter().map(|r| r.meta().help_order).collect();
    assert_eq!(orders, vec![10, 20, 30]);
    let paths: Vec<&str> = sorted.iter().map(|r| r.meta().route.as_str()).collect();
    assert_eq!(paths, vec!["/a", "/b", "/c"]);
}

/// Merging: defaults first, request parameters override them, and the
/// endpoint selector itself is never forwarded.
#[test]
fn merge_and_encode_params() {
    let defaults = vec![
        ("lang".to_string(), "en".to_string()),
        ("page".to_string(), "1".to_string()),
    ];
    let params = vec![
        ("endpoint".to_string(), "news".to_string()),
        ("page".to_string(), "2".to_string()),
        ("q".to_string(), "a b".to_string()),
    ];
    let merged = merge_params(&defaults, &params);
    assert_eq!(merged.len(), 3);
    assert_eq!(merged.get(&"lang".to_string()), Some(&"en".to_string()));
    assert_eq!(merged.get(&"page".to_string()), Some(&"2".to_string()));
    assert_eq!(merged.get(&"q".to_string()), Some(&"a b".to_string()));
    assert_eq!(merged.get(&"endpoint".to_string()), None);

    let pairs = vec![
        ("lang".to_string(), "en".to_string()),
        ("page".to_string(), "2".to_string()),
        ("q".to_string(), "a b".to_string()),
    ];
    // Would read "lang=en..." unencoded if the pairs came back unchanged.
    assert_eq!(
        api_query_url("http://h:81", "/v1/items", &pairs),
        "http://h:81/v1/items?lang=en&page=2&q=a+b"
    );
    assert_eq!(api_query_url("http://h:81", "/v1/items", &vec![]), "http://h:81/v1/items");
}

#[test]
fn endpoint_lookup() {
    let endpoints = vec![
        (
            "news".to_string(),
            ApiEndpointConfig { path: "/v1/news".to_string(), default_params: vec![] },
        ),
        (
            "stats".to_string(),
            ApiEndpointConfig { path: "/v1/stats".to_string(), default_params: vec![] },
        ),
    ];
    assert_eq!(
        find_endpoint(&endpoints, &"stats".to_string()).map(|c| c.path.as_str()),
        Some("/v1/stats")
    );
    assert!(find_endpoint(&endpoints, &"nope".to_string()).is_none());
}

#[test]
fn proxy_urls() {
    let base = "https://api.example";
    let url = |e: &str| proxy_endpoint_url(base, e, None, None);
    assert_eq!(url("warstatus").as_deref(), Some("https://api.example/WarSeason/801/Status"));
    assert_eq!(url("WarStatus").as_deref(), Some("https://api.example/WarSeason/801/Status"));
    assert_eq!(url("warinfo").as_deref(), Some("https://api.example/WarSeason/801/WarInfo"));
    assert_eq!(
        url("majororders").as_deref(),
        Some("https://api.example/v2/Assignment/War/801")
    );
    assert_eq!(
        url("globalstats").as_deref(),
        Some("https://api.example/Stats/War/801/Summary")
    );
    assert_eq!(
        url("missionrewards").as_deref(),
        Some("https://api.example/Mission/RewardEntries")
    );
    assert_eq!(
        url("newsticker").as_deref(),
        Some("https://api.example/WarSeason/NewsTicker")
    );
    assert_eq!(
        url("gweffects").as_deref(),
        Some("https://api.example/WarSeason/GalacticWarEffects")
    );
    assert_eq!(url("unknown"), None);
}

#[test]
fn proxy_newsfeed_query() {
    let base = "https://api.example";
    assert_eq!(
        proxy_endpoint_url(base, "newsfeed", None, None).as_deref(),
        Some("https://api.example/NewsFeed/801?maxEntries=1024")
    );
    let max = "5".to_string();
    let from = "77".to_string();
    assert_eq!(
        proxy_endpoint_url(base, "newsfeed", Some(&max), Some(&from)).as_deref(),
        Some("https://api.example/NewsFeed/801?maxEntries=5&fromTimestamp=77")
    );
}

/// Paths without home-directory shorthand come through unchanged.
#[test]
fn path_expansion_keeps_plain_paths() {
    let p = expand_run_paths("/tmp/x.lock", "/tmp/x.log", "/opt/x.sh");
    assert_eq!(p.lock, "/tmp/x.lock");
    assert_eq!(p.log, "/tmp/x.log");
    assert_eq!(p.script, "/opt/x.sh");
    let empty = expand_run_paths("", "/tmp/y.log", "/opt/y.sh");
    assert_eq!(empty.lock, "");
}
