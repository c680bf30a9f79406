use nullscan::export::{export_to_csv, export_to_html, export_to_markdown, html_escape, ExportFormat};
use nullscan::report::{
    count_open, generate_network_scan_report, generate_scan_report, merge_results, open_results,
};
use nullscan::scanner::{scan_port, ConnectOutcome, ScanResult};
use nullscan::targets::IpAddress;
use nullscan::vuln::{VulnSeverity, Vulnerability};

const A: IpAddress = IpAddress::V4(0x0a00_0002);
const B: IpAddress = IpAddress::V4(0x0a00_000a);

fn open(target: IpAddress, port: u16, banner: Option<&str>, ms: u64) -> ScanResult {
    scan_port(target, port, ConnectOutcome::Connected, ms, true, banner.map(|b| b.to_string()))
}

fn closed(target: IpAddress, port: u16) -> ScanResult {
    scan_port(target, port, ConnectOutcome::TimedOut, 3000, true, None)
}

fn vulnerability(cve: &str, severity: VulnSeverity) -> Vulnerability {
    Vulnerability {
        cve: cve.to_string(),
        description: String::new(),
        severity,
        cvss_score: None,
        published: None,
        references: vec![],
    }
}

#[test]
fn formats() {
    assert_ne!(ExportFormat::Json, ExportFormat::Markdown);
    assert_ne!(ExportFormat::Csv, ExportFormat::Html);
}

#[test]
fn html_escaping() {
    assert_eq!(html_escape(""), "");
    assert_eq!(html_escape("plain"), "plain");
    assert_eq!(html_escape("<a href=\"x\">T&C's</a>"), "&lt;a href=&quot;x&quot;&gt;T&amp;C&#x27;s&lt;/a&gt;");
    assert_eq!(html_escape("&amp;"), "&amp;amp;");
}

#[test]
fn csv_lists_the_open_ports() {
    let mut with_vulns = open(A, 22, Some("SSH - \"quoted\""), 12);
    with_vulns.vulnerabilities =
        vec![vulnerability("CVE-1", VulnSeverity::High), vulnerability("CVE-2", VulnSeverity::Low)];
    let results = vec![closed(A, 21), with_vulns, open(A, 4444, None, 3), closed(A, 80)];
    assert_eq!(
        export_to_csv(&results),
        "Port,Status,Service,Banner,ResponseTime(ms),Vulnerabilities\n\
         22,Open,\"SSH\",\"SSH - \"\"quoted\"\"\",12,\"CVE-1 (High); CVE-2 (Low)\"\n\
         4444,Open,\"Unknown\",\"N/A\",3,\"None\"\n"
    );
    assert_eq!(
        export_to_csv(&vec![closed(A, 1)]),
        "Port,Status,Service,Banner,ResponseTime(ms),Vulnerabilities\n"
    );
}

#[test]
fn markdown_without_open_ports() {
    let results = vec![closed(A, 1), closed(A, 2)];
    let report = generate_scan_report(&results, "10.0.0.2");
    assert_eq!(
        export_to_markdown(&results, &report, "1.50s", "now"),
        "# 🔍 NullScan Report\n\n## 📊 Scan Information\n\n- **Target:** 10.0.0.2\n\
         - **Total Ports Scanned:** 2\n- **Open Ports:** 0\n- **Closed Ports:** 2\n\
         - **Scan Duration:** 1.50s\n- **Timestamp:** now\n\n\
         ## 🚫 No Open Ports Found\n\nAll scanned ports were closed or filtered.\n\
         \n---\n*Generated by NullScan v1.6.0*\n"
    );
}

#[test]
fn markdown_for_one_host() {
    let mut ssh = open(A, 22, Some("SSH - a|b"), 5);
    ssh.vulnerabilities = vec![vulnerability("CVE-1", VulnSeverity::Critical), vulnerability("CVE-2", VulnSeverity::Info)];
    let results = vec![ssh, closed(A, 23), open(A, 80, None, 7)];
    let report = generate_scan_report(&results, "10.0.0.2");
    assert_eq!(
        export_to_markdown(&results, &report, "2s", "t"),
        "# 🔍 NullScan Report\n\n## 📊 Scan Information\n\n- **Target:** 10.0.0.2\n\
         - **Total Ports Scanned:** 3\n- **Open Ports:** 2\n- **Closed Ports:** 1\n\
         - **Scan Duration:** 2s\n- **Timestamp:** t\n\n\
         ## 🟢 Open Ports\n\n\
         | Port | Service | Banner | Response Time | Vulnerabilities |\n\
         |------|---------|--------|--------------|----------------|\n\
         | 22 | SSH | SSH - a\\|b | 5ms | 🔴 CVE-1 (Critical)<br>🔴 CVE-2 (Info) |\n\
         | 80 | HTTP | N/A | 7ms | None |\n\
         \n---\n*Generated by NullScan v1.6.0*\n"
    );
}

#[test]
fn markdown_groups_several_hosts_by_text() {
    // "10.0.0.10" comes before "10.0.0.2" in the order of a dictionary.
    let results = vec![open(A, 22, None, 1), open(B, 80, None, 2), open(A, 443, None, 3), closed(B, 81)];
    let merged_report = generate_network_scan_report(&results, 2, "10.0.0.0/28");
    assert_eq!(merged_report.target, "10.0.0.0/28 (2 hosts)");
    let text = export_to_markdown(&results, &merged_report, "2s", "t");
    let expected_ports = "## 🟢 Open Ports\n\n\
         ### 🖥️ Host: 10.0.0.10\n\n\
         | Port | Service | Banner | Response Time | Vulnerabilities |\n\
         |------|---------|--------|--------------|----------------|\n\
         | 80 | HTTP | N/A | 2ms | None |\n\
         \n\
         ### 🖥️ Host: 10.0.0.2\n\n\
         | Port | Service | Banner | Response Time | Vulnerabilities |\n\
         |------|---------|--------|--------------|----------------|\n\
         | 22 | SSH | N/A | 1ms | None |\n\
         | 443 | HTTPS | N/A | 3ms | None |\n\
         \n\
         \n---\n*Generated by NullScan v1.6.0*\n";
    assert!(text.ends_with(expected_ports), "{}", text);
    assert!(text.contains("- **Target:** 10.0.0.0/28 (2 hosts)\n"));
}

#[test]
fn html_for_no_open_port() {
    let results = vec![closed(A, 1)];
    let report = generate_scan_report(&results, "10.0.0.2");
    let html = export_to_html(&results, &report, "1s", "Tuesday");
    assert!(html.starts_with("<!DOCTYPE html>\n<html lang=\"en\">"));
    assert!(html.ends_with("</script>\n</body>\n</html>"));
    assert!(html.contains("<title>🔍 NullScan Report - Unknown</title>"));
    assert!(html.contains("<div class=\"stat-label\">Target</div>"));
    assert!(html.contains("<h3>🚫 No Open Ports Found</h3>"));
    assert!(html.contains("<p>Generated by <strong>NullScan v1.6.0</strong> • Tuesday</p>"));
    assert!(html.contains("<div class=\"stat-value\">1</div>\n                <div class=\"stat-label\">Ports Scanned</div>"));
    assert!(html.contains("<div class=\"stat-value\">0</div>\n                <div class=\"stat-label\">Open Ports</div>"));
    assert!(html.contains("<div class=\"stat-value\">1s</div>\n                <div class=\"stat-label\">Scan Duration</div>"));
    assert!(!html.contains("host-group\">"));
    // The style sheet and the script come out with single braces.
    assert!(html.contains("        * {\n            margin: 0;"));
    assert!(html.contains("function toggleHost(hostId) {\n"));
    assert!(html.contains("text += `Port ${cells[0].textContent.trim()}: ${cells[1].textContent.trim()} - ${cells[2].textContent.trim()}${vulns}\\\\n`;"));
}

#[test]
fn html_for_one_host() {
    let mut ssh = open(A, 22, Some("<b>SSH</b>"), 5);
    ssh.vulnerabilities = vec![vulnerability("CVE-1", VulnSeverity::Critical), vulnerability("CVE-2", VulnSeverity::Medium)];
    let results = vec![ssh, open(A, 4444, None, 9)];
    let report = generate_scan_report(&results, "10.0.0.2");
    let html = export_to_html(&results, &report, "1s", "t");
    assert!(html.contains("<title>🔍 NullScan Report - 10.0.0.2</title>"));
    assert!(html.contains("<div class=\"stat-label\">Target</div>"));
    assert!(html.contains("<div class=\"host-header\" onclick=\"toggleHost('10_0_0_2')\">"));
    assert!(html.contains("<div class=\"host-title\">📡 10.0.0.2</div>"));
    assert!(html.contains("<div class=\"port-count\">2 ports</div>"));
    assert!(html.contains("<div class=\"collapsible-content\" id=\"content_10_0_0_2\">"));
    assert!(html.contains("<th onclick=\"sortTable('10_0_0_2', 4)\">Response Time</th>"));
    assert!(html.contains("<tbody id=\"tbody_10_0_0_2\">"));
    assert!(html.contains("<td><span class=\"port-number\">22</span></td>"));
    assert!(html.contains("<td><span class=\"service-tag\">SSH</span></td>"));
    assert!(html.contains("<td><div class=\"banner-text\">&lt;b&gt;SSH&lt;/b&gt;</div></td>"));
    assert!(html.contains(
        "<td><div class=\"vuln-cell\"><div style=\"color: #dc2626; font-weight: 600; margin: 2px 0;\">🔴 CVE-1 (Critical)</div><div style=\"color: #d97706; font-weight: 600; margin: 2px 0;\">🔴 CVE-2 (Medium)</div></div></td>"
    ));
    assert!(html.contains("<td><span class=\"response-time\">5ms</span></td>"));
    assert!(html.contains("<td><span class=\"service-tag\">Unknown</span></td>"));
    assert!(html.contains("<td><div class=\"banner-text\">N/A</div></td>"));
    assert!(html.contains("<td><div class=\"vuln-cell\"><span style=\"color: #6b7280;\">None</span></div></td>"));
    assert!(!html.contains("No Open Ports Found"));
}

#[test]
fn html_for_several_hosts() {
    let v6 = IpAddress::V6(1);
    let results = vec![open(A, 22, None, 1), open(v6, 80, None, 2), open(B, 443, None, 3)];
    let report = generate_network_scan_report(&results, 3, "spec");
    let html = export_to_html(&results, &report, "1s", "t");
    assert!(html.contains("<title>🔍 NullScan Report - 3 hosts</title>"));
    assert!(html.contains("<div class=\"stat-label\">Targets</div>"));
    let first = html.find("📡 10.0.0.10<").unwrap();
    let second = html.find("📡 10.0.0.2<").unwrap();
    let third = html.find("📡 ::1<").unwrap();
    assert!(first < second && second < third);
    assert!(html.contains("toggleHost('__1')"));
    assert_eq!(html.matches("<div class=\"port-count\">1 ports</div>").count(), 3);
}

#[test]
fn reports_count_open_and_closed_ports() {
    let results = vec![open(A, 1, None, 1), closed(A, 2), open(A, 3, None, 1), closed(A, 4), closed(A, 5)];
    assert_eq!(count_open(&results), 2);
    let report = generate_scan_report(&results, "host");
    assert_eq!(report.target, "host");
    assert_eq!(report.total_targets, None);
    assert_eq!((report.total_ports, report.open_ports, report.closed_ports), (5, 2, 3));
    let entries = report.summary_entries();
    assert_eq!(
        entries,
        vec![
            ("target".to_string(), "host".to_string()),
            ("total_ports".to_string(), "5".to_string()),
            ("open_ports".to_string(), "2".to_string()),
            ("closed_ports".to_string(), "3".to_string()),
        ]
    );
    let report = generate_network_scan_report(&results, 12, "10.0.0.0/28");
    assert_eq!(report.target, "10.0.0.0/28 (12 hosts)");
    assert_eq!(report.total_targets, Some(12));
    assert_eq!(report.summary_entries()[1], ("total_targets".to_string(), "12".to_string()));
    assert_eq!(report.summary_entries().len(), 5);
    let empty = generate_scan_report(&vec![], "x");
    assert_eq!((empty.total_ports, empty.open_ports, empty.closed_ports), (0, 0, 0));
}

#[test]
fn merging_keeps_host_order() {
    let all = vec![
        vec![open(A, 1, None, 1), closed(A, 2)],
        vec![],
        vec![open(B, 3, None, 1)],
    ];
    let merged = merge_results(all);
    assert_eq!(merged.iter().map(|r| (r.target, r.port)).collect::<Vec<_>>(), vec![(A, 1), (A, 2), (B, 3)]);
    assert!(merge_results(vec![]).is_empty());
}

#[test]
fn open_results_are_kept_in_order() {
    let results = vec![closed(A, 1), open(A, 2, Some("x"), 1), closed(B, 3), open(B, 4, None, 2)];
    let kept = open_results(&results);
    assert_eq!(kept.iter().map(|r| (r.target, r.port)).collect::<Vec<_>>(), vec![(A, 2), (B, 4)]);
    assert_eq!(kept[0].banner, Some("x".to_string()));
    assert!(open_results(&vec![closed(A, 1)]).is_empty());
}
