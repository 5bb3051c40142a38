use vstd::prelude::*;

use crate::text::{seq_contains, str_contains, str_eq};

verus! {

/// A reported observation: label, severity and suggestion.
pub type Finding = (String, u32, String);

/// The mathematical value of a [`Finding`].
pub type FindingView = (Seq<char>, u32, Seq<char>);

pub open spec fn finding_view(f: Finding) -> FindingView {
    (f.0@, f.1, f.2@)
}

pub open spec fn opt_finding_view(f: Option<Finding>) -> Option<FindingView> {
    match f {
        Some(x) => Some(finding_view(x)),
        None => None,
    }
}

/// What a [`HeaderRule`] says, as mathematical values.
pub struct RuleView {
    pub name: Seq<char>,
    pub base_severity: u32,
    pub vulnerable: Seq<Seq<char>>,
    pub suggestion: Seq<char>,
}

/// One known security-relevant header: its base severity, the value
/// substrings that mark a known-vulnerable version, and a remediation hint.
pub struct HeaderRule {
    pub name: String,
    pub base_severity: u32,
    pub vulnerable: Vec<String>,
    pub suggestion: String,
}

pub open spec fn strings_view(v: Seq<String>) -> Seq<Seq<char>> {
    v.map_values(|s: String| s@)
}

impl View for HeaderRule {
    type V = RuleView;

    open spec fn view(&self) -> RuleView {
        RuleView {
            name: self.name@,
            base_severity: self.base_severity,
            vulnerable: strings_view(self.vulnerable@),
            suggestion: self.suggestion@,
        }
    }
}

/// The rule that a table holds for `name`; where several share the name, the
/// one added last wins.
pub open spec fn rule_lookup(rules: Seq<RuleView>, name: Seq<char>) -> Option<RuleView>
    decreases rules.len(),
{
    if rules.len() == 0 {
        None
    } else if rules.last().name == name {
        Some(rules.last())
    } else {
        rule_lookup(rules.drop_last(), name)
    }
}

/// The largest base severity a table may hold, so that scores cannot overflow.
pub const MAX_BASE_SEVERITY: u32 = 1000000;

/// Extra severity of an HTML `Content-Type` that does not name UTF-8.
pub open spec fn content_type_severity(value: Seq<char>) -> nat {
    if seq_contains(value, "text/html"@) && !seq_contains(value, "charset=UTF-8"@) {
        2
    } else {
        0
    }
}

/// Extra severity of a `Set-Cookie` value for each missing attribute.
pub open spec fn set_cookie_severity(value: Seq<char>) -> nat {
    (if seq_contains(value, "HttpOnly"@) {
        0nat
    } else {
        2nat
    }) + (if seq_contains(value, "Secure"@) {
        0nat
    } else {
        2nat
    }) + (if seq_contains(value, "SameSite"@) {
        0nat
    } else {
        1nat
    })
}

pub open spec fn default_suggestion() -> Seq<char> {
    "No suggestion available."@
}

/// The rule table that [`HeaderAnalyzer::new`] builds.
pub open spec fn default_rules() -> Seq<RuleView> {
    seq![
        RuleView {
            name: "Server"@,
            base_severity: 3,
            vulnerable: seq!["Apache/2.4.49"@, "nginx/1.18.0"@, "IIS/10.0"@],
            suggestion: "Consider hiding the server version to avoid revealing potential vulnerabilities."@,
        },
        RuleView {
            name: "X-Powered-By"@,
            base_severity: 5,
            vulnerable: seq!["PHP/5.6"@, "ASP.NET"@],
            suggestion: "Remove the X-Powered-By header to prevent disclosing the technology stack."@,
        },
        RuleView {
            name: "Content-Type"@,
            base_severity: 2,
            vulnerable: Seq::empty(),
            suggestion: "Ensure Content-Type headers specify a charset (e.g., charset=UTF-8) to prevent charset-related attacks."@,
        },
        RuleView {
            name: "Set-Cookie"@,
            base_severity: 4,
            vulnerable: Seq::empty(),
            suggestion: "Ensure cookies are set with HttpOnly, Secure, and SameSite attributes for better security."@,
        },
        RuleView {
            name: "X-AspNet-Version"@,
            base_severity: 5,
            vulnerable: Seq::empty(),
            suggestion: "Remove the X-AspNet-Version header to prevent disclosing the framework version."@,
        },
        RuleView {
            name: "X-AspNetMvc-Version"@,
            base_severity: 5,
            vulnerable: Seq::empty(),
            suggestion: "Remove the X-AspNetMvc-Version header to prevent disclosing the framework version."@,
        },
        RuleView {
            name: "X-Frame-Options"@,
            base_severity: 3,
            vulnerable: Seq::empty(),
            suggestion: "Set X-Frame-Options to DENY or SAMEORIGIN to protect against clickjacking attacks."@,
        },
        RuleView {
            name: "X-XSS-Protection"@,
            base_severity: 3,
            vulnerable: Seq::empty(),
            suggestion: "Ensure X-XSS-Protection is set to '1; mode=block' to enable XSS filtering."@,
        },
        RuleView {
            name: "Strict-Transport-Security"@,
            base_severity: 3,
            vulnerable: Seq::empty(),
            suggestion: "Ensure HSTS is properly configured to enforce HTTPS connections."@,
        },
        RuleView {
            name: "X-Content-Type-Options"@,
            base_severity: 3,
            vulnerable: Seq::empty(),
            suggestion: "Set X-Content-Type-Options to 'nosniff' to prevent MIME type sniffing."@,
        },
        RuleView {
            name: "Referrer-Policy"@,
            base_severity: 3,
            vulnerable: Seq::empty(),
            suggestion: "Set a Referrer-Policy to control the amount of referrer information sent with requests."@,
        },
        RuleView {
            name: "Feature-Policy"@,
            base_severity: 3,
            vulnerable: Seq::empty(),
            suggestion: "Implement a Feature-Policy to control which features can be used in the browser."@,
        },
        RuleView {
            name: "Permissions-Policy"@,
            base_severity: 3,
            vulnerable: Seq::empty(),
            suggestion: "Implement a Permissions-Policy to control which permissions can be used in the browser."@,
        },
        RuleView {
            name: "Access-Control-Allow-Origin"@,
            base_severity: 3,
            vulnerable: Seq::empty(),
            suggestion: "Ensure Access-Control-Allow-Origin is properly configured to prevent unauthorized cross-origin requests."@,
        },
        RuleView {
            name: "Access-Control-Allow-Credentials"@,
            base_severity: 3,
            vulnerable: Seq::empty(),
            suggestion: "Ensure Access-Control-Allow-Credentials is properly configured to prevent unauthorized cross-origin credentials sharing."@,
        },
    ]
}

pub open spec fn default_whitelist() -> Seq<Seq<char>> {
    seq!["User-Agent"@, "Accept"@]
}

/// Scores single response headers against a fixed rule table and a whitelist.
/// Header names are matched exactly, case included.
pub struct HeaderAnalyzer {
    whitelist: Vec<String>,
    rules: Vec<HeaderRule>,
}

impl HeaderAnalyzer {
    /// The names that are never reported.
    pub closed spec fn whitelist_view(self) -> Seq<Seq<char>> {
        strings_view(self.whitelist@)
    }

    /// The rule table, in the order the rules were added.
    pub closed spec fn rules_view(self) -> Seq<RuleView> {
        self.rules@.map_values(|r: HeaderRule| r@)
    }

    pub open spec fn wf(self) -> bool {
        forall|i: int|
            0 <= i < self.rules_view().len() ==> #[trigger] self.rules_view()[i].base_severity
                <= MAX_BASE_SEVERITY
    }

    pub open spec fn is_whitelisted(self, name: Seq<char>) -> bool {
        self.whitelist_view().contains(name)
    }

    pub open spec fn base_severity(self, name: Seq<char>) -> nat {
        match rule_lookup(self.rules_view(), name) {
            Some(r) => r.base_severity as nat,
            None => 0,
        }
    }

    pub open spec fn vulnerable_values(self, name: Seq<char>) -> Seq<Seq<char>> {
        match rule_lookup(self.rules_view(), name) {
            Some(r) => r.vulnerable,
            None => Seq::empty(),
        }
    }

    pub open spec fn suggestion_for(self, name: Seq<char>) -> Seq<char> {
        match rule_lookup(self.rules_view(), name) {
            Some(r) => r.suggestion,
            None => default_suggestion(),
        }
    }

    /// `value` holds one of the known-vulnerable substrings listed for `name`.
    pub open spec fn has_vulnerable_value(self, name: Seq<char>, value: Seq<char>) -> bool {
        exists|k: int|
            0 <= k < self.vulnerable_values(name).len() && seq_contains(
                value,
                #[trigger] self.vulnerable_values(name)[k],
            )
    }

    /// Extra severity of a `Server` value naming a known-vulnerable version.
    pub open spec fn server_severity(self, value: Seq<char>) -> nat {
        if self.has_vulnerable_value("Server"@, value) {
            10
        } else {
            0
        }
    }

    /// The severity that a header's value adds on top of its base severity.
    pub open spec fn contextual_severity(self, name: Seq<char>, value: Seq<char>) -> nat {
        if name == "Server"@ {
            self.server_severity(value)
        } else if name == "X-Powered-By"@ {
            5
        } else if name == "Content-Type"@ {
            content_type_severity(value)
        } else if name == "Set-Cookie"@ {
            set_cookie_severity(value)
        } else {
            0
        }
    }

    pub open spec fn severity(self, name: Seq<char>, value: Seq<char>) -> nat {
        self.base_severity(name) + self.contextual_severity(name, value)
    }

    /// The finding for one header: none for a whitelisted name or a zero
    /// score, else `"<name>: <value>"` with its score and suggestion.
    pub open spec fn evaluate(self, name: Seq<char>, value: Seq<char>) -> Option<FindingView> {
        if self.is_whitelisted(name) {
            None
        } else if self.severity(name, value) == 0 {
            None
        } else {
            Some(
                (
                    name + ": "@ + value,
                    self.severity(name, value) as u32,
                    self.suggestion_for(name),
                ),
            )
        }
    }
}

impl HeaderRule {
    pub fn new(name: &str, base_severity: u32, vulnerable: Vec<String>, suggestion: &str) -> (r:
        HeaderRule)
        ensures
            r@ == (RuleView {
                name: name@,
                base_severity,
                vulnerable: strings_view(vulnerable@),
                suggestion: suggestion@,
            }),
    {
        HeaderRule {
            name: String::from_str(name),
            base_severity,
            vulnerable,
            suggestion: String::from_str(suggestion),
        }
    }
}

impl HeaderAnalyzer {
    /// The analyzer with the built-in rule table and whitelist.
    pub fn new() -> (r: HeaderAnalyzer)
        ensures
            r.wf(),
            r.whitelist_view() == default_whitelist(),
            r.rules_view() == default_rules(),
    {
        let whitelist = vec![String::from_str("User-Agent"), String::from_str("Accept")];
        let server_versions = vec![String::from_str("Apache/2.4.49"), String::from_str("nginx/1.18.0"), String::from_str("IIS/10.0")];
        assert(strings_view(server_versions@) =~= seq!["Apache/2.4.49"@, "nginx/1.18.0"@, "IIS/10.0"@]);
        let powered_by_versions = vec![String::from_str("PHP/5.6"), String::from_str("ASP.NET")];
        assert(strings_view(powered_by_versions@) =~= seq!["PHP/5.6"@, "ASP.NET"@]);
        assert(strings_view(Seq::<String>::empty()) =~= Seq::empty());
        let mut rules: Vec<HeaderRule> = Vec::new();
        rules.push(
            HeaderRule::new(
                "Server",
                3,
                server_versions,
                "Consider hiding the server version to avoid revealing potential vulnerabilities.",
            ),
        );
        rules.push(
            HeaderRule::new(
                "X-Powered-By",
                5,
                powered_by_versions,
                "Remove the X-Powered-By header to prevent disclosing the technology stack.",
            ),
        );
        rules.push(
            HeaderRule::new(
                "Content-Type",
                2,
                Vec::new(),
                "Ensure Content-Type headers specify a charset (e.g., charset=UTF-8) to prevent charset-related attacks.",
            ),
        );
        rules.push(
            HeaderRule::new(
                "Set-Cookie",
                4,
                Vec::new(),
                "Ensure cookies are set with HttpOnly, Secure, and SameSite attributes for better security.",
            ),
        );
        rules.push(
            HeaderRule::new(
                "X-AspNet-Version",
                5,
                Vec::new(),
                "Remove the X-AspNet-Version header to prevent disclosing the framework version.",
            ),
        );
        rules.push(
            HeaderRule::new(
                "X-AspNetMvc-Version",
                5,
                Vec::new(),
                "Remove the X-AspNetMvc-Version header to prevent disclosing the framework version.",
            ),
        );
        rules.push(
            HeaderRule::new(
                "X-Frame-Options",
                3,
                Vec::new(),
                "Set X-Frame-Options to DENY or SAMEORIGIN to protect against clickjacking attacks.",
            ),
        );
        rules.push(
            HeaderRule::new(
                "X-XSS-Protection",
                3,
                Vec::new(),
                "Ensure X-XSS-Protection is set to '1; mode=block' to enable XSS filtering.",
            ),
        );
        rules.push(
            HeaderRule::new(
                "Strict-Transport-Security",
                3,
                Vec::new(),
                "Ensure HSTS is properly configured to enforce HTTPS connections.",
            ),
        );
        rules.push(
            HeaderRule::new(
                "X-Content-Type-Options",
                3,
                Vec::new(),
                "Set X-Content-Type-Options to 'nosniff' to prevent MIME type sniffing.",
            ),
        );
        rules.push(
            HeaderRule::new(
                "Referrer-Policy",
                3,
                Vec::new(),
                "Set a Referrer-Policy to control the amount of referrer information sent with requests.",
            ),
        );
        rules.push(
            HeaderRule::new(
                "Feature-Policy",
                3,
                Vec::new(),
                "Implement a Feature-Policy to control which features can be used in the browser.",
            ),
        );
        rules.push(
            HeaderRule::new(
                "Permissions-Policy",
                3,
                Vec::new(),
                "Implement a Permissions-Policy to control which permissions can be used in the browser.",
            ),
        );
        rules.push(
            HeaderRule::new(
                "Access-Control-Allow-Origin",
                3,
                Vec::new(),
                "Ensure Access-Control-Allow-Origin is properly configured to prevent unauthorized cross-origin requests.",
            ),
        );
        rules.push(
            HeaderRule::new(
                "Access-Control-Allow-Credentials",
                3,
                Vec::new(),
                "Ensure Access-Control-Allow-Credentials is properly configured to prevent unauthorized cross-origin credentials sharing.",
            ),
        );
        let r = HeaderAnalyzer { whitelist, rules };
        assert(r.whitelist_view() =~= default_whitelist());
        assert(r.rules_view() =~= default_rules());
        r
    }
}

impl HeaderAnalyzer {
    /// Position of the rule for `name` that [`rule_lookup`] picks.
    fn find_rule(&self, name: &str) -> (r: Option<usize>)
        ensures
            match r {
                Some(i) => i < self.rules@.len() && rule_lookup(self.rules_view(), name@) == Some(
                    self.rules_view()[i as int],
                ),
                None => rule_lookup(self.rules_view(), name@) is None,
            },
    {
        let mut i: usize = self.rules.len();
        assert(self.rules_view().subrange(0, i as int) =~= self.rules_view());
        while i > 0
            invariant
                i <= self.rules@.len(),
                rule_lookup(self.rules_view(), name@) == rule_lookup(
                    self.rules_view().subrange(0, i as int),
                    name@,
                ),
            decreases i,
        {
            let ghost prefix = self.rules_view().subrange(0, i as int);
            assert(prefix.last() == self.rules_view()[i - 1]);
            if str_eq(self.rules[i - 1].name.as_str(), name) {
                return Some(i - 1);
            }
            assert(prefix.drop_last() =~= self.rules_view().subrange(0, i - 1));
            i = i - 1;
        }
        assert(self.rules_view().subrange(0, 0) =~= Seq::<RuleView>::empty());
        None
    }

    fn is_whitelisted_exec(&self, name: &str) -> (r: bool)
        ensures
            r == self.is_whitelisted(name@),
    {
        let mut i: usize = 0;
        while i < self.whitelist.len()
            invariant
                i <= self.whitelist@.len(),
                forall|j: int| 0 <= j < i ==> self.whitelist_view()[j] != name@,
            decreases self.whitelist@.len() - i,
        {
            if str_eq(self.whitelist[i].as_str(), name) {
                assert(self.whitelist_view()[i as int] == name@);
                return true;
            }
            i = i + 1;
        }
        false
    }

    fn check_server_version(&self, version: &str) -> (r: u32)
        ensures
            r == self.server_severity(version@),
    {
        if let Some(idx) = self.find_rule("Server") {
            let vulnerabilities = &self.rules[idx].vulnerable;
            assert(strings_view(vulnerabilities@) == self.vulnerable_values("Server"@));
            let mut k: usize = 0;
            while k < vulnerabilities.len()
                invariant
                    k <= vulnerabilities@.len(),
                    strings_view(vulnerabilities@) == self.vulnerable_values("Server"@),
                    forall|j: int|
                        0 <= j < k ==> !seq_contains(
                            version@,
                            #[trigger] self.vulnerable_values("Server"@)[j],
                        ),
                decreases vulnerabilities@.len() - k,
            {
                if str_contains(version, vulnerabilities[k].as_str()) {
                    assert(self.vulnerable_values("Server"@)[k as int] == vulnerabilities@[k as int]@);
                    return 10;
                }
                k = k + 1;
            }
        }
        0
    }

    fn check_content_type(&self, content_type: &str) -> (r: u32)
        ensures
            r == content_type_severity(content_type@),
    {
        if str_contains(content_type, "text/html") && !str_contains(content_type, "charset=UTF-8") {
            return 2;
        }
        0
    }

    fn check_set_cookie(&self, cookie: &str) -> (r: u32)
        ensures
            r == set_cookie_severity(cookie@),
    {
        let mut score: u32 = 0;
        if !str_contains(cookie, "HttpOnly") {
            score += 2;
        }
        if !str_contains(cookie, "Secure") {
            score += 2;
        }
        if !str_contains(cookie, "SameSite") {
            score += 1;
        }
        score
    }

    fn calculate_severity(&self, key: &str, value: &str) -> (r: u32)
        requires
            self.wf(),
        ensures
            r == self.severity(key@, value@),
    {
        let base_score: u32 = match self.find_rule(key) {
            Some(i) => {
                assert(self.rules_view()[i as int].base_severity == self.rules@[i as int].base_severity);
                self.rules[i].base_severity
            },
            None => 0,
        };
        let additional_score: u32 = if str_eq(key, "Server") {
            self.check_server_version(value)
        } else if str_eq(key, "X-Powered-By") {
            5
        } else if str_eq(key, "Content-Type") {
            self.check_content_type(value)
        } else if str_eq(key, "Set-Cookie") {
            self.check_set_cookie(value)
        } else {
            0
        };
        base_score + additional_score
    }

    /// Scores one header. Absent for a whitelisted name or a zero score; else
    /// the label `"<key>: <value>"`, the score, and the header's suggestion.
    pub fn analyze_header(&self, key: &str, value: &str) -> (r: Option<Finding>)
        requires
            self.wf(),
        ensures
            opt_finding_view(r) == self.evaluate(key@, value@),
    {
        if self.is_whitelisted_exec(key) {
            return None;
        }
        let score = self.calculate_severity(key, value);
        if score > 0 {
            let suggestion = match self.find_rule(key) {
                Some(i) => self.rules[i].suggestion.clone(),
                None => String::from_str("No suggestion available."),
            };
            let mut label = String::from_str(key);
            label.append(": ");
            label.append(value);
            Some((label, score, suggestion))
        } else {
            None
        }
    }
}

/// A whitelisted header is never reported, whatever its value.
pub proof fn lemma_whitelisted_never_reported(a: HeaderAnalyzer, name: Seq<char>, value: Seq<char>)
    requires
        a.is_whitelisted(name),
    ensures
        a.evaluate(name, value) is None,
{
}

/// With the built-in whitelist, `User-Agent` and `Accept` are never reported,
/// whatever their value.
pub proof fn lemma_default_whitelist_never_reported(
    a: HeaderAnalyzer,
    name: Seq<char>,
    value: Seq<char>,
)
    requires
        a.whitelist_view() == default_whitelist(),
        name == "User-Agent"@ || name == "Accept"@,
    ensures
        a.evaluate(name, value) is None,
{
    assert(default_whitelist()[0] == "User-Agent"@);
    assert(default_whitelist()[1] == "Accept"@);
}

/// Scoring is a function of the analyzer and the header alone: two calls on
/// the same header give the same result.
pub proof fn lemma_analyze_header_repeatable(
    a: HeaderAnalyzer,
    name: Seq<char>,
    value: Seq<char>,
    first: Option<Finding>,
    second: Option<Finding>,
)
    requires
        opt_finding_view(first) == a.evaluate(name, value),
        opt_finding_view(second) == a.evaluate(name, value),
    ensures
        opt_finding_view(first) == opt_finding_view(second),
{
}

proof fn lemma_rule_lookup_last_match(rules: Seq<RuleView>, name: Seq<char>, i: int)
    requires
        0 <= i < rules.len(),
        rules[i].name == name,
        forall|j: int| i < j < rules.len() ==> (#[trigger] rules[j]).name != name,
    ensures
        rule_lookup(rules, name) == Some(rules[i]),
    decreases rules.len(),
{
    if i < rules.len() - 1 {
        let rest = rules.drop_last();
        assert(rules.last() == rules[rules.len() - 1]);
        assert forall|j: int| i < j < rest.len() implies (#[trigger] rest[j]).name != name by {
            assert(rest[j] == rules[j]);
        }
        lemma_rule_lookup_last_match(rest, name, i);
    }
}

/// With the built-in table, `X-Powered-By` always scores 10, whatever its
/// value.
pub proof fn lemma_powered_by_always_ten(a: HeaderAnalyzer, value: Seq<char>)
    requires
        a.whitelist_view() == default_whitelist(),
        a.rules_view() == default_rules(),
    ensures
        a.evaluate("X-Powered-By"@, value) matches Some(f) && f.1 == 10,
{
    reveal_strlit("X-Powered-By");
    reveal_strlit("User-Agent");
    reveal_strlit("Accept");
    reveal_strlit("Server");
    reveal_strlit("X-AspNet-Version");
    reveal_strlit("X-AspNetMvc-Version");
    reveal_strlit("X-Frame-Options");
    reveal_strlit("X-XSS-Protection");
    reveal_strlit("Strict-Transport-Security");
    reveal_strlit("X-Content-Type-Options");
    reveal_strlit("Referrer-Policy");
    reveal_strlit("Feature-Policy");
    reveal_strlit("Permissions-Policy");
    reveal_strlit("Access-Control-Allow-Origin");
    reveal_strlit("Access-Control-Allow-Credentials");
    reveal_strlit("Content-Type");
    reveal_strlit("Set-Cookie");
    assert("X-Powered-By"@.len() == 12);
    assert("User-Agent"@.len() == 10);
    assert("Accept"@.len() == 6);
    assert("Server"@.len() == 6);
    assert("Content-Type"@.len() == 12);
    assert("Set-Cookie"@.len() == 10);
    assert("X-AspNet-Version"@.len() == 16);
    assert("X-AspNetMvc-Version"@.len() == 19);
    assert("X-Frame-Options"@.len() == 15);
    assert("X-XSS-Protection"@.len() == 16);
    assert("Strict-Transport-Security"@.len() == 25);
    assert("X-Content-Type-Options"@.len() == 22);
    assert("Referrer-Policy"@.len() == 15);
    assert("Feature-Policy"@.len() == 14);
    assert("Permissions-Policy"@.len() == 18);
    assert("Access-Control-Allow-Origin"@.len() == 27);
    assert("Access-Control-Allow-Credentials"@.len() == 32);
    assert("Content-Type"@[0] != "X-Powered-By"@[0]);
    let rules = default_rules();
    assert forall|j: int| 1 < j < rules.len() implies (#[trigger] rules[j]).name != "X-Powered-By"@ by {
        assert(rules[j].name.len() != 12 || rules[j].name[0] != "X-Powered-By"@[0]);
    }
    lemma_rule_lookup_last_match(rules, "X-Powered-By"@, 1);
    assert(!default_whitelist().contains("X-Powered-By"@)) by {
        assert(default_whitelist()[0] != "X-Powered-By"@);
        assert(default_whitelist()[1] != "X-Powered-By"@);
    }
    assert(a.base_severity("X-Powered-By"@) == 5);
}

} // verus!
