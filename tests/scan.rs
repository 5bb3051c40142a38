use header_checker::{
    compile_patterns, or_pattern_match, pattern_finding, scan_headers, search_headers,
    ExploitPattern, FetchOutcome, Finding, Header, HeaderAnalyzer,
};

fn strings(v: &[&str]) -> Vec<String> {
    v.iter().map(|s| s.to_string()).collect()
}

fn headers(v: &[(&str, &str)]) -> Vec<Header> {
    v.iter().map(|(n, v)| (n.to_string(), v.to_string())).collect()
}

fn patterns(v: &[&str]) -> Vec<ExploitPattern> {
    compile_patterns(&strings(v)).unwrap()
}

fn finding(label: &str, severity: u32, suggestion: &str) -> Finding {
    (label.to_string(), severity, suggestion.to_string())
}

const SERVER_HINT: &str =
    "Consider hiding the server version to avoid revealing potential vulnerabilities.";
const PATTERN_HINT: &str = "Matched a known exploit pattern.";

#[test]
fn end_to_end_single_url() {
    let a = HeaderAnalyzer::new();
    let h = headers(&[("Server", "nginx/1.18.0"), ("X-Custom-Debug", "trace=1")]);
    let r = scan_headers(&a, &h, &strings(&["Server"]), &patterns(&["debug"]));
    assert_eq!(
        r,
        vec![
            finding("Server: nginx/1.18.0", 13, SERVER_HINT),
            finding("Server: nginx/1.18.0", 13, SERVER_HINT),
            finding("Pattern match - X-Custom-Debug: trace=1", 1, PATTERN_HINT),
        ]
    );
}

#[test]
fn priority_header_is_reported_twice() {
    let a = HeaderAnalyzer::new();
    let h = headers(&[("X-Powered-By", "PHP/5.6")]);
    let r = scan_headers(&a, &h, &strings(&["X-Powered-By", "Server"]), &Vec::new());
    assert_eq!(r.len(), 2);
    assert_eq!(r[0], r[1]);
    assert_eq!(r[0].0, "X-Powered-By: PHP/5.6");
    assert_eq!(r[0].1, 10);
}

#[test]
fn rule_match_suppresses_pattern_match() {
    let a = HeaderAnalyzer::new();
    let h = headers(&[("Server", "Caddy")]);
    let r = scan_headers(&a, &h, &Vec::new(), &patterns(&["server", "Server", "Caddy"]));
    assert_eq!(r, vec![finding("Server: Caddy", 3, SERVER_HINT)]);
}

#[test]
fn first_matching_pattern_only() {
    let a = HeaderAnalyzer::new();
    let h = headers(&[("X-Debug-Token", "abc")]);
    let r = scan_headers(&a, &h, &Vec::new(), &patterns(&["debug", "Debug", "Token", "abc"]));
    assert_eq!(
        r,
        vec![finding("Pattern match - X-Debug-Token: abc", 1, PATTERN_HINT)]
    );
}

#[test]
fn pattern_on_value_and_no_match() {
    let a = HeaderAnalyzer::new();
    let h = headers(&[("Via", "1.1 internal-proxy"), ("Date", "today")]);
    let r = scan_headers(&a, &h, &Vec::new(), &patterns(&["int[a-z]+al"]));
    assert_eq!(
        r,
        vec![finding("Pattern match - Via: 1.1 internal-proxy", 1, PATTERN_HINT)]
    );
}

#[test]
fn empty_inputs_give_no_findings() {
    let a = HeaderAnalyzer::new();
    assert!(scan_headers(&a, &Vec::new(), &strings(&["Server"]), &patterns(&["x"])).is_empty());
    let h = headers(&[("Date", "today"), ("User-Agent", "debug")]);
    assert!(scan_headers(&a, &h, &Vec::new(), &Vec::new()).is_empty());
}

#[test]
fn whitelisted_header_can_still_match_a_pattern() {
    let a = HeaderAnalyzer::new();
    let h = headers(&[("User-Agent", "debug-client")]);
    let r = scan_headers(&a, &h, &Vec::new(), &patterns(&["debug"]));
    assert_eq!(
        r,
        vec![finding("Pattern match - User-Agent: debug-client", 1, PATTERN_HINT)]
    );
}

#[test]
fn priority_uses_first_value_of_a_repeated_header() {
    let a = HeaderAnalyzer::new();
    let h = headers(&[("Server", "Caddy"), ("Server", "IIS/10.0")]);
    let r = scan_headers(&a, &h, &strings(&["Server"]), &Vec::new());
    let sev: Vec<u32> = r.iter().map(|f| f.1).collect();
    assert_eq!(sev, vec![3, 3, 13]);
}

#[test]
fn failed_fetch_is_left_out() {
    let a = HeaderAnalyzer::new();
    let fetched: Vec<FetchOutcome> = vec![
        ("http://a".to_string(), Err("timeout".to_string())),
        (
            "http://b".to_string(),
            Ok(headers(&[("X-Powered-By", "Express")])),
        ),
        ("http://c".to_string(), Ok(headers(&[("Date", "today")]))),
    ];
    let r = search_headers(&a, &fetched, &Vec::new(), &Vec::new());
    assert_eq!(r.len(), 1);
    assert_eq!(r[0].0, "http://b");
    assert_eq!(
        r[0].1,
        vec![finding(
            "X-Powered-By: Express",
            10,
            "Remove the X-Powered-By header to prevent disclosing the technology stack."
        )]
    );
    assert!(r.iter().all(|u| u.0 != "http://a" && u.0 != "http://c"));
}

#[test]
fn invalid_pattern_is_rejected() {
    let r = compile_patterns(&strings(&["ok", "foo(bar", "[x"]));
    match r {
        Err(e) => assert_eq!(e.pattern, "foo(bar"),
        Ok(_) => panic!("an invalid pattern was accepted"),
    }
    assert!(ExploitPattern::new("a(").is_err());
    assert!(ExploitPattern::new("api[-_]?key").is_ok());
}

#[test]
fn pattern_finding_label() {
    assert_eq!(
        pattern_finding("X-Runtime", "0.1"),
        finding("Pattern match - X-Runtime: 0.1", 1, PATTERN_HINT)
    );
    let rule = Some(finding("Server: Caddy", 3, SERVER_HINT));
    assert_eq!(or_pattern_match(rule.clone(), "Server", "Caddy", true), rule);
    assert_eq!(or_pattern_match(None, "A", "b", false), None);
    assert_eq!(
        or_pattern_match(None, "A", "b", true),
        Some(finding("Pattern match - A: b", 1, PATTERN_HINT))
    );
}

#[test]
fn patterns_see_the_name_in_lower_case() {
    let a = HeaderAnalyzer::new();
    let h = headers(&[("X-Trace-Id", "ABC")]);
    let r = scan_headers(&a, &h, &Vec::new(), &patterns(&["x-trace"]));
    assert_eq!(
        r,
        vec![finding("Pattern match - X-Trace-Id: ABC", 1, PATTERN_HINT)]
    );
    assert!(scan_headers(&a, &h, &Vec::new(), &patterns(&["X-Trace", "abc"])).is_empty());
}
