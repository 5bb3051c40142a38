use header_checker::HeaderAnalyzer;

fn severity(name: &str, value: &str) -> Option<u32> {
    HeaderAnalyzer::new().analyze_header(name, value).map(|f| f.1)
}

#[test]
fn whitelisted_headers_are_never_reported() {
    let a = HeaderAnalyzer::new();
    for value in ["", "x", "Apache/2.4.49", "text/html", "id=1"] {
        assert_eq!(a.analyze_header("User-Agent", value), None);
        assert_eq!(a.analyze_header("Accept", value), None);
    }
}

#[test]
fn vulnerable_server_scores_thirteen() {
    let a = HeaderAnalyzer::new();
    let f = a.analyze_header("Server", "Apache/2.4.49 (Unix)").unwrap();
    assert_eq!(f.0, "Server: Apache/2.4.49 (Unix)");
    assert_eq!(f.1, 13);
    assert_eq!(
        f.2,
        "Consider hiding the server version to avoid revealing potential vulnerabilities."
    );
    assert_eq!(severity("Server", "nginx/1.18.0"), Some(13));
    assert_eq!(severity("Server", "Microsoft-IIS/10.0"), Some(13));
}

#[test]
fn other_server_scores_base_only() {
    assert_eq!(severity("Server", "Caddy"), Some(3));
    assert_eq!(severity("Server", ""), Some(3));
}

#[test]
fn powered_by_always_scores_ten() {
    for value in ["", "PHP/5.6", "Express", "anything at all"] {
        assert_eq!(severity("X-Powered-By", value), Some(10));
    }
}

#[test]
fn content_type_charset_rule() {
    assert_eq!(severity("Content-Type", "text/html"), Some(4));
    assert_eq!(severity("Content-Type", "text/html; charset=UTF-8"), Some(2));
    assert_eq!(severity("Content-Type", "application/json"), Some(2));
}

#[test]
fn set_cookie_missing_attributes() {
    assert_eq!(severity("Set-Cookie", "id=1"), Some(9));
    assert_eq!(
        severity("Set-Cookie", "id=1; HttpOnly; Secure; SameSite=Strict"),
        Some(4)
    );
    assert_eq!(severity("Set-Cookie", "id=1; HttpOnly"), Some(7));
    assert_eq!(severity("Set-Cookie", "id=1; Secure"), Some(7));
    assert_eq!(severity("Set-Cookie", "id=1; SameSite=Lax"), Some(8));
}

#[test]
fn unknown_header_is_absent() {
    assert_eq!(severity("Unknown-Header", "x"), None);
}

#[test]
fn header_names_are_case_sensitive() {
    assert_eq!(severity("server", "Apache/2.4.49"), None);
}

#[test]
fn table_headers_without_context_score_base() {
    assert_eq!(severity("X-AspNet-Version", "4.0"), Some(5));
    assert_eq!(severity("X-AspNetMvc-Version", "5.2"), Some(5));
    assert_eq!(severity("X-Frame-Options", "DENY"), Some(3));
    assert_eq!(severity("Access-Control-Allow-Credentials", "true"), Some(3));
    let f = HeaderAnalyzer::new()
        .analyze_header("Referrer-Policy", "no-referrer")
        .unwrap();
    assert_eq!(
        f.2,
        "Set a Referrer-Policy to control the amount of referrer information sent with requests."
    );
}

#[test]
fn evaluation_is_repeatable() {
    let a = HeaderAnalyzer::new();
    let first = a.analyze_header("Set-Cookie", "id=1; Secure");
    let second = a.analyze_header("Set-Cookie", "id=1; Secure");
    assert_eq!(first, second);
    assert_eq!(a.analyze_header("Unknown", "v"), a.analyze_header("Unknown", "v"));
}
