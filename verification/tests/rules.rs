use traefik_gui::rule::{acme_rule, acme_target, build_rule, default_port, host_rule, route_name,
    with_suffix};
use traefik_gui::text::{i32_dec, str_eq, str_lt, trimmed};

#[test]
fn trimmed_strips_whitespace() {
    assert_eq!(trimmed("  example.com\t\n"), "example.com");
    assert_eq!(trimmed("example.com"), "example.com");
    assert_eq!(trimmed("   "), "");
    assert_eq!(trimmed(""), "");
    // non-ASCII whitespace is stripped as well
    assert_eq!(trimmed("\u{00A0}host\u{3000}"), "host");
}

#[test]
fn decimal_rendering() {
    assert_eq!(i32_dec(0), "0");
    assert_eq!(i32_dec(7), "7");
    assert_eq!(i32_dec(12345), "12345");
    assert_eq!(i32_dec(-5), "-5");
    assert_eq!(i32_dec(i32::MAX), "2147483647");
    assert_eq!(i32_dec(i32::MIN), "-2147483648");
}

#[test]
fn string_order() {
    assert!(str_lt("a", "b"));
    assert!(!str_lt("b", "a"));
    assert!(str_lt("a", "ab"));
    assert!(!str_lt("ab", "a"));
    assert!(!str_lt("same", "same"));
    assert!(str_eq("same", "same"));
    assert!(!str_eq("same", "Same"));
    assert!(str_lt("gui-http-1-a", "gui-http-1-b"));
}

#[test]
fn single_host_rule() {
    assert_eq!(
        build_rule("example.com", false, &None, false),
        "( Host(`example.com`) )"
    );
}

#[test]
fn multi_host_rule_is_trimmed_and_joined() {
    assert_eq!(
        build_rule("example.com, www.example.com", false, &None, false),
        "( Host(`example.com`) && Host(`www.example.com`) )"
    );
}

#[test]
fn regex_host_rule_is_trimmed() {
    assert_eq!(
        build_rule(" ^api\\..*$ ", true, &None, false),
        "HostRegexp(`^api\\..*$`)"
    );
    assert_eq!(
        build_rule("^x$", true, &None, true),
        "HostSNIRegexp(`^x$`)"
    );
}

#[test]
fn tcp_rule_uses_sni_tokens() {
    assert_eq!(host_rule("a.example, b.example", false, true), "( HostSNI(`a.example`) && HostSNI(`b.example`) )");
    assert_eq!(host_rule("one.example", false, true), "( HostSNI(`one.example`) )");
}

#[test]
fn degenerate_host_lists_pass_through() {
    // operator input is not validated: empty elements become empty matches
    assert_eq!(build_rule("", false, &None, false), "( Host(``) )");
    assert_eq!(
        host_rule("a.example, ", false, false),
        "( Host(`a.example`) && Host(``) )"
    );
}

#[test]
fn prefix_wraps_the_base_rule() {
    assert_eq!(
        build_rule("example.com", false, &Some("/v1".to_string()), false),
        "(( Host(`example.com`) ) && PathPrefix(`/v1`))"
    );
}

#[test]
fn blank_prefix_counts_as_absent() {
    let with_blank = build_rule("example.com", false, &Some("   ".to_string()), false);
    let with_none = build_rule("example.com", false, &None, false);
    assert_eq!(with_blank, with_none);
    let tabbed = build_rule("h.example", true, &Some("\t\n".to_string()), false);
    assert_eq!(tabbed, build_rule("h.example", true, &None, false));
}

#[test]
fn acme_rule_restricts_to_challenge_path() {
    assert_eq!(
        acme_rule("( Host(`example.com`) )"),
        "(( Host(`example.com`) ) && PathPrefix(`/.well-known/acme-challenge/`))"
    );
}

#[test]
fn name_allocation() {
    assert_eq!(route_name("http", 3, "api"), "gui-http-3-api");
    assert_eq!(route_name("https", 12, "shop"), "gui-https-12-shop");
    assert_eq!(route_name("tls", 7, "mail"), "gui-tls-7-mail");
    assert_eq!(with_suffix("gui-tls-7-mail", "-acme"), "gui-tls-7-mail-acme");
    assert_eq!(with_suffix("gui-https-12-shop", "-redirect"), "gui-https-12-shop-redirect");
}

#[test]
fn default_port_appended_only_without_colon() {
    assert_eq!(default_port("10.0.0.9"), "10.0.0.9:443");
    assert_eq!(default_port("10.0.0.5:8443"), "10.0.0.5:8443");
}

#[test]
fn acme_target_rewrites_last_port_segment() {
    assert_eq!(acme_target("10.0.0.5:8443", 80), "10.0.0.5:80");
    assert_eq!(acme_target("10.0.0.9", 80), "10.0.0.9:80");
    assert_eq!(acme_target("a:b:c", 9), "a:b:9");
}
