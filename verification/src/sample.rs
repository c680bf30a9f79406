//! A small database of well-known vulnerabilities, for trying the correlator
//! without a database file.

use crate::vuln::{
    ServicePattern, ServicePatternView, VulnDatabase, VulnDatabaseView, VulnSeverity,
    Vulnerability, VulnerabilityView,
};
use vstd::prelude::*;

verus! {

pub const SAMPLE_VERSION: &'static str = "1.6.0";

pub const SAMPLE_DATE: &'static str = "2025-07-13";

pub const OPENSSH_USER_ENUMERATION: &'static str =
    "OpenSSH through 7.7 is prone to a user enumeration vulnerability due to not delaying bailout for an invalid authenticating user until after the packet containing the request has been fully parsed, related to auth2-gss.c, auth2-hostbased.c, and auth2-pubkey.c.";

pub const APACHE_PRIVILEGE_ESCALATION: &'static str =
    "In Apache HTTP Server 2.4 releases 2.4.17 to 2.4.38, with MPM event, worker or prefork, code executing in less-privileged child processes or threads (including scripts executed by an in-process scripting interpreter) could execute arbitrary code with the privileges of the parent process (usually root) by manipulating the scoreboard.";

pub const MYSQL_OPTIMIZER: &'static str =
    "Vulnerability in the MySQL Server product of Oracle MySQL (component: Server: Optimizer). Supported versions that are affected are 8.0.32 and prior and 8.0.33. Easily exploitable vulnerability allows high privileged attacker with network access via multiple protocols to compromise MySQL Server.";

pub const NGINX_RESOLVER: &'static str =
    "A security issue in nginx resolver was identified, which might allow an attacker who is able to forge UDP packets from the DNS server to cause 1-byte memory overwrite, resulting in worker process crash or potential other impact.";

pub const OPENSSH_NEGOTIATION_LEAK: &'static str =
    "The client side in OpenSSH 5.7 through 8.4 has an Observable Discrepancy leading to an information leak in the algorithm negotiation. This allows man-in-the-middle attackers to target initial connection attempts (where no host key for the server has been cached by the client).";

/// A pattern with one vulnerability.
pub open spec fn entry_view(
    pattern: Seq<char>,
    service_type: Seq<char>,
    cve: Seq<char>,
    description: Seq<char>,
    severity: VulnSeverity,
    cvss_score: u16,
    published: Seq<char>,
    references: Seq<Seq<char>>,
) -> ServicePatternView {
    ServicePatternView {
        pattern,
        service_type,
        vulnerabilities: seq![
            VulnerabilityView {
                cve,
                description,
                severity,
                cvss_score: Some(cvss_score),
                published: Some(published),
                references,
            },
        ],
    }
}

/// The sample database: five patterns, each with one vulnerability.
pub open spec fn sample_database() -> VulnDatabaseView {
    VulnDatabaseView {
        version: SAMPLE_VERSION@,
        last_updated: SAMPLE_DATE@,
        patterns: seq![
            entry_view(
                "openssh 7.4"@,
                "SSH"@,
                "CVE-2018-15473"@,
                OPENSSH_USER_ENUMERATION@,
                VulnSeverity::Medium,
                53,
                "2018-08-17"@,
                seq![
                    "https://nvd.nist.gov/vuln/detail/CVE-2018-15473"@,
                    "https://security.netapp.com/advisory/ntap-20181221-0001/"@,
                ],
            ),
            entry_view(
                "apache 2.4.41"@,
                "HTTP"@,
                "CVE-2019-0211"@,
                APACHE_PRIVILEGE_ESCALATION@,
                VulnSeverity::High,
                78,
                "2019-04-08"@,
                seq![
                    "https://nvd.nist.gov/vuln/detail/CVE-2019-0211"@,
                    "https://httpd.apache.org/security/vulnerabilities_24.html"@,
                ],
            ),
            entry_view(
                "mysql 8.0.32"@,
                "Database"@,
                "CVE-2023-21980"@,
                MYSQL_OPTIMIZER@,
                VulnSeverity::Medium,
                49,
                "2023-04-18"@,
                seq![
                    "https://nvd.nist.gov/vuln/detail/CVE-2023-21980"@,
                    "https://www.oracle.com/security-alerts/cpuapr2023.html"@,
                ],
            ),
            entry_view(
                "nginx 1.18.0"@,
                "HTTP"@,
                "CVE-2021-23017"@,
                NGINX_RESOLVER@,
                VulnSeverity::High,
                77,
                "2021-06-01"@,
                seq![
                    "https://nvd.nist.gov/vuln/detail/CVE-2021-23017"@,
                    "https://nginx.org/en/security_advisories.html"@,
                ],
            ),
            entry_view(
                "contains:ssh-2.0-openssh_8.0"@,
                "SSH"@,
                "CVE-2020-14145"@,
                OPENSSH_NEGOTIATION_LEAK@,
                VulnSeverity::Medium,
                59,
                "2020-12-02"@,
                seq!["https://nvd.nist.gov/vuln/detail/CVE-2020-14145"@],
            ),
        ],
    }
}

fn entry(
    pattern: &str,
    service_type: &str,
    cve: &str,
    description: &str,
    severity: VulnSeverity,
    cvss_score: u16,
    published: &str,
    references: Vec<String>,
) -> (r: ServicePattern)
    ensures
        r.deep_view() == entry_view(
            pattern@,
            service_type@,
            cve@,
            description@,
            severity,
            cvss_score,
            published@,
            references.deep_view(),
        ),
{
    let mut vulnerabilities: Vec<Vulnerability> = Vec::new();
    let v = Vulnerability {
        cve: cve.to_string(),
        description: description.to_string(),
        severity,
        cvss_score: Some(cvss_score),
        published: Some(published.to_string()),
        references,
    };
    vulnerabilities.push(v);
    assert(vulnerabilities.deep_view() =~= seq![v.deep_view()]);
    ServicePattern {
        pattern: pattern.to_string(),
        service_type: service_type.to_string(),
        vulnerabilities,
    }
}

fn two(first: &str, second: &str) -> (r: Vec<String>)
    ensures
        r.deep_view() == seq![first@, second@],
{
    let mut v: Vec<String> = Vec::new();
    v.push(first.to_string());
    v.push(second.to_string());
    assert(v.deep_view() =~= seq![first@, second@]);
    v
}

fn one(first: &str) -> (r: Vec<String>)
    ensures
        r.deep_view() == seq![first@],
{
    let mut v: Vec<String> = Vec::new();
    v.push(first.to_string());
    assert(v.deep_view() =~= seq![first@]);
    v
}

/// Builds the sample database.
pub fn create_sample_database() -> (r: VulnDatabase)
    ensures
        r.deep_view() == sample_database(),
{
    let mut patterns: Vec<ServicePattern> = Vec::new();
    let openssh_old = entry(
        "openssh 7.4",
        "SSH",
        "CVE-2018-15473",
        OPENSSH_USER_ENUMERATION,
        VulnSeverity::Medium,
        53,
        "2018-08-17",
        two(
            "https://nvd.nist.gov/vuln/detail/CVE-2018-15473",
            "https://security.netapp.com/advisory/ntap-20181221-0001/",
        ),
    );
    let apache = entry(
        "apache 2.4.41",
        "HTTP",
        "CVE-2019-0211",
        APACHE_PRIVILEGE_ESCALATION,
        VulnSeverity::High,
        78,
        "2019-04-08",
        two(
            "https://nvd.nist.gov/vuln/detail/CVE-2019-0211",
            "https://httpd.apache.org/security/vulnerabilities_24.html",
        ),
    );
    let mysql = entry(
        "mysql 8.0.32",
        "Database",
        "CVE-2023-21980",
        MYSQL_OPTIMIZER,
        VulnSeverity::Medium,
        49,
        "2023-04-18",
        two(
            "https://nvd.nist.gov/vuln/detail/CVE-2023-21980",
            "https://www.oracle.com/security-alerts/cpuapr2023.html",
        ),
    );
    let nginx = entry(
        "nginx 1.18.0",
        "HTTP",
        "CVE-2021-23017",
        NGINX_RESOLVER,
        VulnSeverity::High,
        77,
        "2021-06-01",
        two(
            "https://nvd.nist.gov/vuln/detail/CVE-2021-23017",
            "https://nginx.org/en/security_advisories.html",
        ),
    );
    let openssh_new = entry(
        "contains:ssh-2.0-openssh_8.0",
        "SSH",
        "CVE-2020-14145",
        OPENSSH_NEGOTIATION_LEAK,
        VulnSeverity::Medium,
        59,
        "2020-12-02",
        one("https://nvd.nist.gov/vuln/detail/CVE-2020-14145"),
    );
    patterns.push(openssh_old);
    patterns.push(apache);
    patterns.push(mysql);
    patterns.push(nginx);
    patterns.push(openssh_new);
    assert(patterns.deep_view() =~= sample_database().patterns);
    VulnDatabase {
        version: SAMPLE_VERSION.to_string(),
        last_updated: SAMPLE_DATE.to_string(),
        patterns,
    }
}

} // verus!
