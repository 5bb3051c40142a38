use vstd::prelude::*;

use crate::header_analyzer::{
    finding_view, opt_finding_view, strings_view, Finding, FindingView, HeaderAnalyzer,
};
use crate::pattern::{pattern_matches, patterns_view, ExploitPattern};
use crate::text::{ascii_lowercase, str_eq, to_ascii_lowercase};

verus! {

/// A response header: name and value.
pub type Header = (String, String);

pub type HeaderView = (Seq<char>, Seq<char>);

/// A URL with the headers fetched from it, or the reason the fetch failed.
pub type FetchOutcome = (String, Result<Vec<Header>, String>);

/// A URL with the findings for it.
pub type UrlFindings = (String, Vec<Finding>);

pub open spec fn headers_view(h: Seq<Header>) -> Seq<HeaderView> {
    h.map_values(|p: Header| (p.0@, p.1@))
}

pub open spec fn findings_view(f: Seq<Finding>) -> Seq<FindingView> {
    f.map_values(|x: Finding| finding_view(x))
}

pub open spec fn url_findings_view(r: Seq<UrlFindings>) -> Seq<(Seq<char>, Seq<FindingView>)> {
    r.map_values(|u: UrlFindings| (u.0@, findings_view(u.1@)))
}

/// The value of the first header called `name`.
pub open spec fn first_value(headers: Seq<HeaderView>, name: Seq<char>) -> Option<Seq<char>>
    decreases headers.len(),
{
    if headers.len() == 0 {
        None
    } else if headers[0].0 == name {
        Some(headers[0].1)
    } else {
        first_value(headers.drop_first(), name)
    }
}

/// Some pattern matches `name` or `value`.
pub open spec fn any_pattern_matches(
    patterns: Seq<Seq<char>>,
    name: Seq<char>,
    value: Seq<char>,
) -> bool {
    exists|j: int|
        0 <= j < patterns.len() && (pattern_matches(#[trigger] patterns[j], name)
            || pattern_matches(patterns[j], value))
}

/// The finding reported for a header that only a pattern matched.
pub open spec fn pattern_finding_view(name: Seq<char>, value: Seq<char>) -> FindingView {
    ("Pattern match - "@ + name + ": "@ + value, 1, "Matched a known exploit pattern."@)
}

/// The rule finding if there is one, else the pattern finding if a pattern
/// matched.
pub open spec fn with_pattern_fallback(
    found: Option<FindingView>,
    name: Seq<char>,
    value: Seq<char>,
    matched: bool,
) -> Option<FindingView> {
    match found {
        Some(f) => Some(f),
        None => if matched {
            Some(pattern_finding_view(name, value))
        } else {
            None
        },
    }
}

/// The finding of the full pass for one header. Header names are
/// case-insensitive, so patterns are tested on the name in ASCII lower case.
pub open spec fn header_finding(
    a: HeaderAnalyzer,
    patterns: Seq<Seq<char>>,
    name: Seq<char>,
    value: Seq<char>,
) -> Option<FindingView> {
    with_pattern_fallback(
        a.evaluate(name, value),
        name,
        value,
        any_pattern_matches(patterns, ascii_lowercase(name), value),
    )
}

pub open spec fn push_some(s: Seq<FindingView>, f: Option<FindingView>) -> Seq<FindingView> {
    match f {
        Some(x) => s.push(x),
        None => s,
    }
}

/// The priority pass: for each priority name present among the headers, in
/// order, the rule finding for its first value.
pub open spec fn priority_findings(
    a: HeaderAnalyzer,
    headers: Seq<HeaderView>,
    priority: Seq<Seq<char>>,
) -> Seq<FindingView>
    decreases priority.len(),
{
    if priority.len() == 0 {
        Seq::empty()
    } else {
        let prev = priority_findings(a, headers, priority.drop_last());
        match first_value(headers, priority.last()) {
            Some(v) => push_some(prev, a.evaluate(priority.last(), v)),
            None => prev,
        }
    }
}

/// The full pass: for every header, in order, its rule or pattern finding.
pub open spec fn full_findings(
    a: HeaderAnalyzer,
    headers: Seq<HeaderView>,
    patterns: Seq<Seq<char>>,
) -> Seq<FindingView>
    decreases headers.len(),
{
    if headers.len() == 0 {
        Seq::empty()
    } else {
        push_some(
            full_findings(a, headers.drop_last(), patterns),
            header_finding(a, patterns, headers.last().0, headers.last().1),
        )
    }
}

/// All findings for one URL's headers: the priority pass, then the full pass.
pub open spec fn scan(
    a: HeaderAnalyzer,
    headers: Seq<HeaderView>,
    priority: Seq<Seq<char>>,
    patterns: Seq<Seq<char>>,
) -> Seq<FindingView> {
    priority_findings(a, headers, priority) + full_findings(a, headers, patterns)
}

/// The URLs whose fetch succeeded and gave at least one finding, in order,
/// each with its findings.
pub open spec fn scan_result(
    a: HeaderAnalyzer,
    fetched: Seq<FetchOutcome>,
    priority: Seq<Seq<char>>,
    patterns: Seq<Seq<char>>,
) -> Seq<(Seq<char>, Seq<FindingView>)>
    decreases fetched.len(),
{
    if fetched.len() == 0 {
        Seq::empty()
    } else {
        let prev = scan_result(a, fetched.drop_last(), priority, patterns);
        match fetched.last().1 {
            Ok(h) => {
                let f = scan(a, headers_view(h@), priority, patterns);
                if f.len() > 0 {
                    prev.push((fetched.last().0@, f))
                } else {
                    prev
                }
            },
            Err(_) => prev,
        }
    }
}

/// Index of the first header called `name`.
fn find_header(headers: &Vec<Header>, name: &str) -> (r: Option<usize>)
    ensures
        match r {
            Some(i) => i < headers@.len() && first_value(headers_view(headers@), name@) == Some(
                headers@[i as int].1@,
            ),
            None => first_value(headers_view(headers@), name@) is None,
        },
{
    let ghost hv = headers_view(headers@);
    let mut i: usize = 0;
    assert(hv.subrange(0, hv.len() as int) =~= hv);
    while i < headers.len()
        invariant
            i <= headers@.len(),
            hv == headers_view(headers@),
            first_value(hv, name@) == first_value(hv.subrange(i as int, hv.len() as int), name@),
        decreases headers@.len() - i,
    {
        let ghost rest = hv.subrange(i as int, hv.len() as int);
        assert(rest[0] == hv[i as int]);
        if str_eq(headers[i].0.as_str(), name) {
            return Some(i);
        }
        assert(rest.drop_first() =~= hv.subrange(i + 1, hv.len() as int));
        i = i + 1;
    }
    assert(hv.subrange(i as int, hv.len() as int) =~= Seq::<HeaderView>::empty());
    None
}

/// Whether some pattern matches `name` or `value`; stops at the first that does.
fn matches_any(patterns: &Vec<ExploitPattern>, name: &str, value: &str) -> (r: bool)
    ensures
        r == any_pattern_matches(patterns_view(patterns@), name@, value@),
{
    let ghost pv = patterns_view(patterns@);
    let mut j: usize = 0;
    while j < patterns.len()
        invariant
            j <= patterns@.len(),
            pv == patterns_view(patterns@),
            forall|k: int|
                0 <= k < j ==> !pattern_matches(#[trigger] pv[k], name@) && !pattern_matches(
                    pv[k],
                    value@,
                ),
        decreases patterns@.len() - j,
    {
        if patterns[j].is_match(name) || patterns[j].is_match(value) {
            assert(pv[j as int] == patterns@[j as int]@);
            return true;
        }
        j = j + 1;
    }
    false
}

/// The finding `"Pattern match - <name>: <value>"` with severity 1.
pub fn pattern_finding(name: &str, value: &str) -> (r: Finding)
    ensures
        finding_view(r) == pattern_finding_view(name@, value@),
{
    let mut label = String::from_str("Pattern match - ");
    label.append(name);
    label.append(": ");
    label.append(value);
    (label, 1, String::from_str("Matched a known exploit pattern."))
}

/// Keeps a rule finding; without one, reports the header as a pattern match
/// exactly when `matched`.
pub fn or_pattern_match(found: Option<Finding>, name: &str, value: &str, matched: bool) -> (r:
    Option<Finding>)
    ensures
        opt_finding_view(r) == with_pattern_fallback(
            opt_finding_view(found),
            name@,
            value@,
            matched,
        ),
{
    match found {
        Some(f) => Some(f),
        None => if matched {
            Some(pattern_finding(name, value))
        } else {
            None
        },
    }
}

proof fn lemma_push_some(v: Seq<Finding>, f: Option<Finding>)
    ensures
        findings_view(
            match f {
                Some(x) => v.push(x),
                None => v,
            },
        ) == push_some(findings_view(v), opt_finding_view(f)),
{
    if let Some(x) = f {
        assert(findings_view(v.push(x)) =~= findings_view(v).push(finding_view(x)));
    }
}

/// All findings for one URL's headers: first the priority pass over
/// `priority`, then every header in order, falling back to the patterns for
/// headers that no rule reports (tested on the name in ASCII lower case and
/// on the value).
pub fn scan_headers(
    analyzer: &HeaderAnalyzer,
    headers: &Vec<Header>,
    priority: &Vec<String>,
    patterns: &Vec<ExploitPattern>,
) -> (r: Vec<Finding>)
    requires
        analyzer.wf(),
    ensures
        findings_view(r@) == scan(
            *analyzer,
            headers_view(headers@),
            strings_view(priority@),
            patterns_view(patterns@),
        ),
{
    let ghost hv = headers_view(headers@);
    let ghost pr = strings_view(priority@);
    let ghost pv = patterns_view(patterns@);
    let mut matches: Vec<Finding> = Vec::new();
    let mut i: usize = 0;
    assert(findings_view(matches@) =~= Seq::empty());
    while i < priority.len()
        invariant
            i <= priority@.len(),
            analyzer.wf(),
            hv == headers_view(headers@),
            pr == strings_view(priority@),
            findings_view(matches@) == priority_findings(*analyzer, hv, pr.subrange(0, i as int)),
        decreases priority@.len() - i,
    {
        let param = priority[i].as_str();
        let ghost before = matches@;
        assert(pr.subrange(0, i + 1).drop_last() =~= pr.subrange(0, i as int));
        assert(pr.subrange(0, i + 1).last() == param@);
        if let Some(h) = find_header(headers, param) {
            let found = analyzer.analyze_header(param, headers[h].1.as_str());
            proof {
                lemma_push_some(before, found);
            }
            if let Some(f) = found {
                matches.push(f);
            }
        }
        i = i + 1;
    }
    assert(pr.subrange(0, i as int) =~= pr);
    let ghost pass_one = matches@;
    let mut k: usize = 0;
    assert(findings_view(pass_one) + full_findings(*analyzer, hv.subrange(0, 0), pv)
        =~= findings_view(pass_one));
    while k < headers.len()
        invariant
            k <= headers@.len(),
            analyzer.wf(),
            hv == headers_view(headers@),
            pv == patterns_view(patterns@),
            findings_view(matches@) == findings_view(pass_one) + full_findings(
                *analyzer,
                hv.subrange(0, k as int),
                pv,
            ),
        decreases headers@.len() - k,
    {
        let key = headers[k].0.as_str();
        let value = headers[k].1.as_str();
        let ghost before = matches@;
        assert(hv.subrange(0, k + 1).drop_last() =~= hv.subrange(0, k as int));
        assert(hv.subrange(0, k + 1).last() == (key@, value@));
        let found = analyzer.analyze_header(key, value);
        let matched = if found.is_none() {
            let lowered = to_ascii_lowercase(key);
            matches_any(patterns, lowered.as_str(), value)
        } else {
            false
        };
        let entry = or_pattern_match(found, key, value, matched);
        proof {
            lemma_push_some(before, entry);
            let ff = full_findings(*analyzer, hv.subrange(0, k as int), pv);
            assert(push_some(findings_view(pass_one) + ff, header_finding(*analyzer, pv, key@, value@))
                =~= findings_view(pass_one) + push_some(ff, header_finding(*analyzer, pv, key@, value@)));
        }
        if let Some(f) = entry {
            matches.push(f);
        }
        k = k + 1;
    }
    assert(hv.subrange(0, k as int) =~= hv);
    matches
}

/// For each URL in order whose fetch succeeded, its findings, kept only when
/// there is at least one. Failed fetches are left out.
pub fn search_headers(
    analyzer: &HeaderAnalyzer,
    fetched: &Vec<FetchOutcome>,
    search_params: &Vec<String>,
    exploit_patterns: &Vec<ExploitPattern>,
) -> (r: Vec<UrlFindings>)
    requires
        analyzer.wf(),
    ensures
        url_findings_view(r@) == scan_result(
            *analyzer,
            fetched@,
            strings_view(search_params@),
            patterns_view(exploit_patterns@),
        ),
{
    let ghost pr = strings_view(search_params@);
    let ghost pv = patterns_view(exploit_patterns@);
    let mut results: Vec<UrlFindings> = Vec::new();
    let mut i: usize = 0;
    assert(url_findings_view(results@) =~= Seq::empty());
    assert(fetched@.subrange(0, 0) =~= Seq::<FetchOutcome>::empty());
    while i < fetched.len()
        invariant
            i <= fetched@.len(),
            analyzer.wf(),
            pr == strings_view(search_params@),
            pv == patterns_view(exploit_patterns@),
            url_findings_view(results@) == scan_result(
                *analyzer,
                fetched@.subrange(0, i as int),
                pr,
                pv,
            ),
        decreases fetched@.len() - i,
    {
        assert(fetched@.subrange(0, i + 1).drop_last() =~= fetched@.subrange(0, i as int));
        assert(fetched@.subrange(0, i + 1).last() == fetched@[i as int]);
        match &fetched[i].1 {
            Ok(headers) => {
                let matches = scan_headers(analyzer, headers, search_params, exploit_patterns);
                if matches.len() > 0 {
                    let entry: UrlFindings = (fetched[i].0.clone(), matches);
                    let ghost before = results@;
                    results.push(entry);
                    assert(url_findings_view(results@) =~= url_findings_view(before).push(
                        (entry.0@, findings_view(entry.1@)),
                    ));
                }
            },
            Err(_) => {},
        }
        i = i + 1;
    }
    assert(fetched@.subrange(0, i as int) =~= fetched@);
    results
}

proof fn lemma_push_some_keeps(s: Seq<FindingView>, f: Option<FindingView>, x: FindingView)
    requires
        s.contains(x),
    ensures
        push_some(s, f).contains(x),
{
    let i = choose|i: int| 0 <= i < s.len() && s[i] == x;
    if let Some(y) = f {
        assert(s.push(y)[i] == x);
    }
}

proof fn lemma_priority_contains(
    a: HeaderAnalyzer,
    headers: Seq<HeaderView>,
    priority: Seq<Seq<char>>,
    p: int,
    f: FindingView,
)
    requires
        0 <= p < priority.len(),
        first_value(headers, priority[p]) matches Some(v) && a.evaluate(priority[p], v) == Some(f),
    ensures
        priority_findings(a, headers, priority).contains(f),
    decreases priority.len(),
{
    let prev = priority_findings(a, headers, priority.drop_last());
    if p == priority.len() - 1 {
        assert(prev.push(f)[prev.len() as int] == f);
    } else {
        lemma_priority_contains(a, headers, priority.drop_last(), p, f);
        match first_value(headers, priority.last()) {
            Some(v) => lemma_push_some_keeps(prev, a.evaluate(priority.last(), v), f),
            None => {},
        }
    }
}

proof fn lemma_full_contains(
    a: HeaderAnalyzer,
    headers: Seq<HeaderView>,
    patterns: Seq<Seq<char>>,
    h: int,
    f: FindingView,
)
    requires
        0 <= h < headers.len(),
        a.evaluate(headers[h].0, headers[h].1) == Some(f),
    ensures
        full_findings(a, headers, patterns).contains(f),
    decreases headers.len(),
{
    let prev = full_findings(a, headers.drop_last(), patterns);
    if h == headers.len() - 1 {
        assert(prev.push(f)[prev.len() as int] == f);
    } else {
        lemma_full_contains(a, headers.drop_last(), patterns, h, f);
        lemma_push_some_keeps(
            prev,
            header_finding(a, patterns, headers.last().0, headers.last().1),
            f,
        );
    }
}

/// A header named in the priority list whose first occurrence the rules
/// report is reported twice: once by the priority pass and once more by the
/// full pass.
pub proof fn lemma_priority_header_reported_twice(
    a: HeaderAnalyzer,
    headers: Seq<HeaderView>,
    priority: Seq<Seq<char>>,
    patterns: Seq<Seq<char>>,
    p: int,
    h: int,
)
    requires
        0 <= p < priority.len(),
        0 <= h < headers.len(),
        headers[h].0 == priority[p],
        first_value(headers, priority[p]) == Some(headers[h].1),
        a.evaluate(headers[h].0, headers[h].1) is Some,
    ensures
        ({
            let f = a.evaluate(headers[h].0, headers[h].1)->Some_0;
            let s = scan(a, headers, priority, patterns);
            exists|i: int, j: int| 0 <= i < j < s.len() && s[i] == f && s[j] == f
        }),
{
    let f = a.evaluate(headers[h].0, headers[h].1)->Some_0;
    let pf = priority_findings(a, headers, priority);
    let ff = full_findings(a, headers, patterns);
    let s = scan(a, headers, priority, patterns);
    lemma_priority_contains(a, headers, priority, p, f);
    lemma_full_contains(a, headers, patterns, h, f);
    let i = choose|i: int| 0 <= i < pf.len() && pf[i] == f;
    let j = choose|j: int| 0 <= j < ff.len() && ff[j] == f;
    assert(s[i] == f);
    assert(s[pf.len() + j] == f);
}

/// A header that the rules report is never reported as a pattern match,
/// whatever the patterns.
pub proof fn lemma_rule_finding_suppresses_patterns(
    a: HeaderAnalyzer,
    patterns: Seq<Seq<char>>,
    name: Seq<char>,
    value: Seq<char>,
)
    requires
        a.evaluate(name, value) is Some,
    ensures
        header_finding(a, patterns, name, value) == a.evaluate(name, value),
{
}

/// A URL whose every fetch failed is not among the scan results.
pub proof fn lemma_failed_fetch_not_reported(
    a: HeaderAnalyzer,
    fetched: Seq<FetchOutcome>,
    priority: Seq<Seq<char>>,
    patterns: Seq<Seq<char>>,
    url: Seq<char>,
)
    requires
        forall|i: int| 0 <= i < fetched.len() && (#[trigger] fetched[i]).0@ == url ==> fetched[i].1 is Err,
    ensures
        forall|k: int|
            0 <= k < scan_result(a, fetched, priority, patterns).len() ==> (#[trigger] scan_result(
                a,
                fetched,
                priority,
                patterns,
            )[k]).0 != url,
    decreases fetched.len(),
{
    if fetched.len() > 0 {
        let rest = fetched.drop_last();
        assert forall|i: int| 0 <= i < rest.len() && (#[trigger] rest[i]).0@ == url implies rest[i].1 is Err by {
            assert(rest[i] == fetched[i]);
        }
        lemma_failed_fetch_not_reported(a, rest, priority, patterns, url);
        assert(fetched.last() == fetched[fetched.len() - 1]);
        let prev = scan_result(a, rest, priority, patterns);
        let all = scan_result(a, fetched, priority, patterns);
        assert forall|k: int| 0 <= k < all.len() implies (#[trigger] all[k]).0 != url by {
            if k < prev.len() {
                assert(all[k] == prev[k]);
            }
        }
    }
}

} // verus!
