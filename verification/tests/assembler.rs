use traefik_gui::config::{Config, ConfigState};
use traefik_gui::generate_traefik_config;
use traefik_gui::http::HttpRoute;
use traefik_gui::https::HttpsRoute;
use traefik_gui::tls::TlsRoute;
use traefik_gui::traefik::{HttpConfig, HttpScheme, TcpConfig, TraefikConfig};

fn http_route(id: i32, name: &str, host: &str, target: &str) -> HttpRoute {
    HttpRoute {
        id,
        enabled: true,
        name: name.to_string(),
        priority: None,
        target: target.to_string(),
        host_regex: false,
        host: host.to_string(),
        prefix: None,
    }
}

fn https_route(id: i32, name: &str, host: &str) -> HttpsRoute {
    HttpsRoute {
        id,
        enabled: true,
        name: name.to_string(),
        priority: None,
        target: format!("http://upstream-{}", id),
        host_regex: false,
        host: host.to_string(),
        prefix: None,
        https_redirect: false,
        allow_http_acme: false,
    }
}

fn tls_route(id: i32, name: &str, host: &str, target: &str) -> TlsRoute {
    TlsRoute {
        id,
        enabled: true,
        name: name.to_string(),
        priority: None,
        target: target.to_string(),
        host_regex: false,
        host: host.to_string(),
        acme_http_passthrough: None,
        https_redirect: false,
    }
}

fn http_names(cfg: &HttpConfig) -> Vec<String> {
    let mut names: Vec<String> = Vec::new();
    for i in 0..cfg.routers.len() {
        names.push(cfg.routers.key_at(i).clone());
    }
    names
}

#[test]
fn default_middleware_is_always_present() {
    let cfg = Config { acme_provider_name: String::new() };
    let out = generate_traefik_config(&Vec::new(), &Vec::new(), &Vec::new(), &cfg);
    assert_eq!(out.http.middlewares.len(), 1);
    let mw = out.http.middlewares.get("https-redirect").expect("default middleware missing");
    let redirect = mw.redirect_scheme.expect("redirect directive missing");
    assert_eq!(redirect.scheme, HttpScheme::Https);
    assert!(out.tcp.is_empty());
    assert!(!out.http.is_empty());
}

#[test]
fn assembler_merges_all_three_translators() {
    let cfg = Config { acme_provider_name: "issuer".to_string() };
    let out = generate_traefik_config(
        &vec![http_route(1, "plain", "p.example", "http://10.0.0.1")],
        &vec![https_route(2, "secure", "s.example")],
        &vec![tls_route(3, "raw", "r.example", "10.0.0.3")],
        &cfg,
    );
    assert!(out.http.routers.get("gui-http-1-plain").is_some());
    assert!(out.http.routers.get("gui-https-2-secure").is_some());
    assert!(out.tcp.routers.get("gui-tls-3-raw").is_some());
    assert!(out.http.services.get("gui-http-1-plain").is_some());
    assert!(out.http.services.get("gui-https-2-secure").is_some());
    assert!(out.tcp.services.get("gui-tls-3-raw").is_some());
    assert!(out.http.middlewares.get("https-redirect").is_some());
}

#[test]
fn compiling_twice_yields_the_same_document() {
    let cfg = Config { acme_provider_name: "issuer".to_string() };
    let mut tls = tls_route(3, "raw", "r.example, r2.example", "10.0.0.3:9000");
    tls.acme_http_passthrough = Some(8080);
    tls.priority = Some(5);
    tls.https_redirect = true;
    let http_routes = vec![http_route(1, "plain", "p.example", "http://10.0.0.1")];
    let https_routes = vec![https_route(2, "secure", "s.example")];
    let tls_routes = vec![tls];
    let once = generate_traefik_config(&http_routes, &https_routes, &tls_routes, &cfg);
    let twice = generate_traefik_config(&http_routes, &https_routes, &tls_routes, &cfg);
    assert_eq!(once.http.routers.len(), twice.http.routers.len());
    for i in 0..once.http.routers.len() {
        assert_eq!(once.http.routers.key_at(i), twice.http.routers.key_at(i));
        assert_eq!(once.http.routers.value_at(i).rule, twice.http.routers.value_at(i).rule);
        assert_eq!(
            once.http.routers.value_at(i).service,
            twice.http.routers.value_at(i).service
        );
        assert_eq!(
            once.http.routers.value_at(i).priority,
            twice.http.routers.value_at(i).priority
        );
    }
    assert_eq!(once.tcp.routers.len(), twice.tcp.routers.len());
    for i in 0..once.tcp.routers.len() {
        assert_eq!(once.tcp.routers.key_at(i), twice.tcp.routers.key_at(i));
        assert_eq!(once.tcp.routers.value_at(i).rule, twice.tcp.routers.value_at(i).rule);
    }
    assert_eq!(once.tcp.services.len(), twice.tcp.services.len());
    assert_eq!(once.http.services.len(), twice.http.services.len());
    assert_eq!(once.http.middlewares.len(), twice.http.middlewares.len());
}

#[test]
fn merge_of_disjoint_sets_keeps_both() {
    let a = HttpRoute::generate_traefik_config(&vec![
        http_route(1, "one", "one.example", "http://10.0.0.1"),
    ]);
    let b = HttpRoute::generate_traefik_config(&vec![
        http_route(2, "two", "two.example", "http://10.0.0.2"),
    ]);
    let mut merged = a;
    merged.merge(b);
    assert_eq!(merged.routers.len(), 2);
    assert!(merged.routers.get("gui-http-1-one").is_some());
    assert!(merged.routers.get("gui-http-2-two").is_some());
    assert_eq!(merged.services.len(), 2);
}

#[test]
fn merge_on_shared_name_takes_the_later_entry() {
    let earlier = HttpRoute::generate_traefik_config(&vec![
        http_route(1, "app", "old.example", "http://old-upstream"),
    ]);
    let later = HttpRoute::generate_traefik_config(&vec![
        http_route(1, "app", "new.example", "http://new-upstream"),
    ]);
    let mut merged = earlier;
    merged.merge(later);
    assert_eq!(merged.routers.len(), 1);
    let router = merged.routers.get("gui-http-1-app").unwrap();
    assert_eq!(router.rule, "( Host(`new.example`) )");
    let service = merged.services.get("gui-http-1-app").unwrap();
    assert_eq!(service.load_balancer.servers[0].url, "http://new-upstream");
}

#[test]
fn empty_sections_report_empty() {
    let http = HttpConfig::new();
    assert!(http.is_empty());
    let tcp = TcpConfig::new();
    assert!(tcp.is_empty());
    let whole = TraefikConfig::new();
    assert!(whole.http.is_empty());
    assert!(whole.tcp.is_empty());
}

#[test]
fn config_state_returns_held_snapshot() {
    let state = ConfigState::new(Config { acme_provider_name: "issuer".to_string() });
    assert_eq!(state.config().acme_provider_name, "issuer");
    let mut state = state;
    state.set(Config { acme_provider_name: String::new() });
    assert_eq!(state.config().acme_provider_name, "");
}

#[test]
fn default_config_names_no_resolver() {
    let cfg = Config::default();
    assert_eq!(cfg.acme_provider_name, "");
}
