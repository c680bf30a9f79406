use nullscan::sample::create_sample_database;
use nullscan::vuln::{
    sort_by_severity, ServicePattern, VulnChecker, VulnDatabase, VulnSeverity, Vulnerability,
};

fn vulnerability(cve: &str, severity: VulnSeverity) -> Vulnerability {
    Vulnerability {
        cve: cve.to_string(),
        description: "Test".to_string(),
        severity,
        cvss_score: None,
        published: None,
        references: vec![],
    }
}

fn pattern(pattern: &str, vulnerabilities: Vec<Vulnerability>) -> ServicePattern {
    ServicePattern { pattern: pattern.to_string(), service_type: "Test".to_string(), vulnerabilities }
}

fn checker(patterns: Vec<ServicePattern>) -> VulnChecker {
    VulnChecker::from_database(VulnDatabase {
        version: "1".to_string(),
        last_updated: "today".to_string(),
        patterns,
    })
}

fn cves(list: &[Vulnerability]) -> Vec<String> {
    list.iter().map(|v| v.cve.clone()).collect()
}

#[test]
fn test_vulnerability_matching() {
    let sample_db = create_sample_database();
    let checker = VulnChecker::from_database(sample_db);

    let vulns = checker.check_banner("OpenSSH 7.4p1 Ubuntu-10+deb9u7");
    assert!(!vulns.is_empty());
    assert_eq!(vulns[0].cve, "CVE-2018-15473");
}

#[test]
fn test_no_vulnerabilities() {
    let sample_db = create_sample_database();
    let checker = VulnChecker::from_database(sample_db);

    let vulns = checker.check_banner("OpenSSH 9.0 (completely secure version)");
    assert!(vulns.is_empty());
}

#[test]
fn test_severity_ordering() {
    let vulns = vec![
        Vulnerability {
            cve: "CVE-2021-1".to_string(),
            description: "Test".to_string(),
            severity: VulnSeverity::Low,
            cvss_score: None,
            published: None,
            references: vec![],
        },
        Vulnerability {
            cve: "CVE-2021-2".to_string(),
            description: "Test".to_string(),
            severity: VulnSeverity::Critical,
            cvss_score: None,
            published: None,
            references: vec![],
        },
    ];

    let vulns = sort_by_severity(&vulns);

    assert_eq!(vulns[0].cve, "CVE-2021-2"); // Critical should be first
}

#[test]
fn severity_names_colors_and_ranks() {
    assert_eq!(VulnSeverity::Critical.to_string(), "Critical");
    assert_eq!(VulnSeverity::High.to_string(), "High");
    assert_eq!(VulnSeverity::Medium.to_string(), "Medium");
    assert_eq!(VulnSeverity::Low.to_string(), "Low");
    assert_eq!(VulnSeverity::Info.to_string(), "Info");
    assert_eq!(VulnSeverity::Critical.to_color_code(), "🔴");
    assert_eq!(VulnSeverity::High.to_color_code(), "🟠");
    assert_eq!(VulnSeverity::Medium.to_color_code(), "🟡");
    assert_eq!(VulnSeverity::Low.to_color_code(), "🟢");
    assert_eq!(VulnSeverity::Info.to_color_code(), "🔵");
    assert_eq!(VulnSeverity::Critical.severity_rank(), 0);
    assert_eq!(VulnSeverity::Info.severity_rank(), 4);
}

#[test]
fn sorting_by_severity_is_stable() {
    let list = vec![
        vulnerability("a", VulnSeverity::Low),
        vulnerability("b", VulnSeverity::High),
        vulnerability("c", VulnSeverity::Low),
        vulnerability("d", VulnSeverity::Critical),
        vulnerability("e", VulnSeverity::High),
        vulnerability("f", VulnSeverity::Info),
        vulnerability("g", VulnSeverity::Medium),
    ];
    let sorted = sort_by_severity(&list);
    assert_eq!(cves(&sorted), vec!["d", "b", "e", "g", "a", "c", "f"]);
}

#[test]
fn plain_pattern_ignores_case_of_banner_and_pattern() {
    let c = checker(vec![pattern("OpenSSH 7.4", vec![vulnerability("x", VulnSeverity::Low)])]);
    assert_eq!(cves(&c.check_banner("  SSH-2.0-OPENSSH 7.4 build  ")), vec!["x"]);
    assert!(c.check_banner("openssh 7.5").is_empty());
}

#[test]
fn contains_pattern_is_matched_as_written() {
    let c = checker(vec![pattern("contains:Apache", vec![vulnerability("x", VulnSeverity::Low)])]);
    // The banner is lowered, the pattern is not.
    assert!(c.check_banner("Apache 2.4").is_empty());
    let c = checker(vec![pattern("contains:apache", vec![vulnerability("x", VulnSeverity::Low)])]);
    assert_eq!(cves(&c.check_banner("Apache 2.4")), vec!["x"]);
}

#[test]
fn regex_pattern_is_matched_by_the_regex_engine() {
    let c = checker(vec![pattern(
        "regex:^nginx/1\\.(1[0-7]|[0-9])\\.",
        vec![vulnerability("x", VulnSeverity::High)],
    )]);
    assert_eq!(cves(&c.check_banner("nginx/1.14.2")), vec!["x"]);
    assert!(c.check_banner("nginx/1.18.0").is_empty());
    assert!(VulnChecker::matches_pattern("abc123", "regex:\\d+"));
    assert!(!VulnChecker::matches_pattern("abc", "regex:\\d+"));
}

#[test]
fn invalid_regex_is_skipped() {
    let c = checker(vec![
        pattern("regex:foo(bar", vec![vulnerability("bad", VulnSeverity::Critical)]),
        pattern("foo", vec![vulnerability("good", VulnSeverity::Low)]),
    ]);
    assert_eq!(cves(&c.check_banner("foo(bar")), vec!["good"]);
}

#[test]
fn version_pattern_tests_the_first_version_of_the_banner() {
    let c = checker(vec![pattern("version:7.4 7.5", vec![vulnerability("x", VulnSeverity::Low)])]);
    assert_eq!(cves(&c.check_banner("OpenSSH 7.4p1")), vec!["x"]);
    assert_eq!(cves(&c.check_banner("OpenSSH 7.5 then 9.9")), vec!["x"]);
    assert!(c.check_banner("OpenSSH 9.9 then 7.4").is_empty());
    assert!(c.check_banner("no version here").is_empty());
    // Three-part versions are taken whole.
    assert!(c.check_banner("x 7.4.1").is_empty());
    assert!(VulnChecker::matches_pattern("apache 2.4.41", "version:2.4.41"));
}

#[test]
fn every_matching_pattern_contributes_in_rank_then_pattern_order() {
    let c = checker(vec![
        pattern("ssh", vec![vulnerability("a", VulnSeverity::Low), vulnerability("b", VulnSeverity::Critical)]),
        pattern("telnet", vec![vulnerability("c", VulnSeverity::Critical)]),
        pattern("contains:open", vec![vulnerability("d", VulnSeverity::Critical), vulnerability("e", VulnSeverity::Low)]),
    ]);
    assert_eq!(cves(&c.check_banner("OpenSSH")), vec!["b", "d", "a", "e"]);
}

#[test]
fn empty_banner_has_no_vulnerabilities() {
    let c = checker(vec![
        pattern("", vec![vulnerability("a", VulnSeverity::Low)]),
        pattern("regex:.*", vec![vulnerability("b", VulnSeverity::Low)]),
    ]);
    assert!(c.check_banner("").is_empty());
    assert_eq!(cves(&c.check_banner("x")), vec!["a", "b"]);
}

#[test]
fn correlation_repeats() {
    let c = VulnChecker::from_database(create_sample_database());
    let first = c.check_banner("SSH-2.0-OpenSSH_8.0 and apache 2.4.41 and openssh 7.4");
    let second = c.check_banner("SSH-2.0-OpenSSH_8.0 and apache 2.4.41 and openssh 7.4");
    assert_eq!(cves(&first), cves(&second));
    assert_eq!(cves(&first), vec!["CVE-2019-0211", "CVE-2018-15473", "CVE-2020-14145"]);
}

#[test]
fn collect_matches_takes_the_marked_patterns() {
    let c = checker(vec![
        pattern("a", vec![vulnerability("a", VulnSeverity::Low)]),
        pattern("b", vec![vulnerability("b", VulnSeverity::High)]),
        pattern("c", vec![vulnerability("c", VulnSeverity::Info)]),
    ]);
    assert_eq!(cves(&c.collect_matches(&vec![true, false, true])), vec!["a", "c"]);
    assert_eq!(cves(&c.collect_matches(&vec![true, true])), vec!["b", "a"]);
    assert!(c.collect_matches(&vec![]).is_empty());
}

#[test]
fn cache_holds_the_last_pattern_of_a_name() {
    let c = checker(vec![
        pattern("a", vec![vulnerability("first", VulnSeverity::Low)]),
        pattern("b", vec![vulnerability("b", VulnSeverity::High)]),
        pattern("a", vec![vulnerability("second", VulnSeverity::Info)]),
    ]);
    assert_eq!(cves(c.cached_vulnerabilities("a").unwrap()), vec!["second"]);
    assert_eq!(cves(c.cached_vulnerabilities("b").unwrap()), vec!["b"]);
    assert!(c.cached_vulnerabilities("c").is_none());
}

#[test]
fn stats_count_patterns_and_severities() {
    let c = VulnChecker::from_database(create_sample_database());
    let stats = c.get_stats();
    assert_eq!(stats.total_patterns, 5);
    assert_eq!(stats.total_vulnerabilities, 5);
    assert_eq!(
        stats.severity_counts,
        vec![("High".to_string(), 2), ("Medium".to_string(), 3)]
    );
    assert_eq!(stats.version, "1.6.0");
    assert_eq!(stats.last_updated, "2025-07-13");
}

#[test]
fn sample_database_content() {
    let db = create_sample_database();
    assert_eq!(db.version, "1.6.0");
    assert_eq!(db.patterns.len(), 5);
    assert_eq!(db.patterns[0].pattern, "openssh 7.4");
    assert_eq!(db.patterns[4].pattern, "contains:ssh-2.0-openssh_8.0");
    assert_eq!(db.patterns[1].vulnerabilities[0].cvss_score, Some(78));
    assert_eq!(db.patterns[1].vulnerabilities[0].references.len(), 2);
    assert_eq!(db.patterns[4].vulnerabilities[0].references.len(), 1);
    assert_eq!(db.patterns[2].vulnerabilities[0].published, Some("2023-04-18".to_string()));
}

#[test]
fn clone_keeps_everything() {
    let db = create_sample_database();
    let v = db.patterns[0].vulnerabilities[0].clone();
    assert_eq!(v.cve, "CVE-2018-15473");
    assert_eq!(v.references, db.patterns[0].vulnerabilities[0].references);
    assert_eq!(v.severity, VulnSeverity::Medium);
    let p = db.patterns[3].clone();
    assert_eq!(p.pattern, "nginx 1.18.0");
    assert_eq!(p.vulnerabilities.len(), 1);
}
