use nullscan::banner::GrabStep;
use nullscan::sample::create_sample_database;
use nullscan::scanner::{
    fast_batches, get_service_name, get_service_name_fast, ping_host, ping_sweep, scan_port,
    scan_port_ultra_fast, wants_banner, ConnectOutcome, PingStep, PortOutcome, ScanConfig,
    ScanResult, Scanner, TaskKind,
};
use nullscan::targets::IpAddress;
use nullscan::vuln::{ServicePattern, VulnChecker, VulnDatabase, VulnSeverity, Vulnerability};

const HOST: IpAddress = IpAddress::V4(0x7f00_0001);

fn config(ports: Vec<u16>, fast_mode: bool) -> ScanConfig {
    ScanConfig {
        target: HOST,
        ports,
        concurrency: 100,
        timeout_ms: 3000,
        grab_banners: true,
        quiet: true,
        fast_mode,
    }
}

fn closed() -> Option<PortOutcome> {
    Some(PortOutcome { outcome: ConnectOutcome::Refused, response_time: 1, banner: None })
}

fn open(banner: Option<&str>) -> Option<PortOutcome> {
    Some(PortOutcome {
        outcome: ConnectOutcome::Connected,
        response_time: 2,
        banner: banner.map(|b| b.to_string()),
    })
}

fn ports_of(results: &[ScanResult]) -> Vec<u16> {
    results.iter().map(|r| r.port).collect()
}

#[test]
fn service_names() {
    let table = [
        (21, "FTP"), (22, "SSH"), (23, "Telnet"), (25, "SMTP"), (53, "DNS"), (80, "HTTP"),
        (110, "POP3"), (135, "RPC"), (139, "NetBIOS"), (143, "IMAP"), (443, "HTTPS"), (445, "SMB"),
        (993, "IMAPS"), (995, "POP3S"), (1433, "MSSQL"), (3306, "MySQL"), (3389, "RDP"),
        (5432, "PostgreSQL"), (5900, "VNC"), (8080, "HTTP-Alt"), (8443, "HTTPS-Alt"),
    ];
    for (port, name) in table {
        assert_eq!(get_service_name(port), Some(name.to_string()));
    }
    assert_eq!(get_service_name(8000), None);
    assert_eq!(get_service_name(0), None);
    let fast = [(22, "SSH"), (80, "HTTP"), (443, "HTTPS"), (21, "FTP"), (25, "SMTP"), (53, "DNS"), (135, "RPC"), (445, "SMB"), (3389, "RDP")];
    for (port, name) in fast {
        assert_eq!(get_service_name_fast(port), Some(name.to_string()));
    }
    for port in [23, 110, 139, 143, 993, 995, 1433, 3306, 5432, 5900, 8080, 8443] {
        assert_eq!(get_service_name_fast(port), None);
    }
}

#[test]
fn open_port_record() {
    let r = scan_port(HOST, 22, ConnectOutcome::Connected, 17, true, Some("SSH - x".to_string()));
    assert_eq!(r.target, HOST);
    assert_eq!(r.port, 22);
    assert!(r.is_open);
    assert_eq!(r.service, Some("SSH".to_string()));
    assert_eq!(r.banner, Some("SSH - x".to_string()));
    assert_eq!(r.response_time, 17);
    assert!(r.vulnerabilities.is_empty());
    let r = scan_port(HOST, 22, ConnectOutcome::Connected, 17, false, Some("SSH - x".to_string()));
    assert_eq!(r.banner, None);
    let r = scan_port(HOST, 4444, ConnectOutcome::Connected, 17, true, None);
    assert_eq!(r.service, None);
    assert!(r.is_open);
}

#[test]
fn closed_port_record_is_bare() {
    for outcome in [ConnectOutcome::Refused, ConnectOutcome::TimedOut] {
        let r = scan_port(HOST, 22, outcome, 3000, true, Some("stale".to_string()));
        assert!(!r.is_open);
        assert_eq!(r.service, None);
        assert_eq!(r.banner, None);
        assert!(r.vulnerabilities.is_empty());
        assert_eq!(r.response_time, 3000);
        let r = scan_port_ultra_fast(HOST, 22, outcome, 95);
        assert!(!r.is_open);
        assert_eq!(r.service, None);
        assert_eq!(r.banner, None);
    }
}

#[test]
fn fast_record_has_no_banner() {
    let r = scan_port_ultra_fast(HOST, 443, ConnectOutcome::Connected, 5);
    assert!(r.is_open);
    assert_eq!(r.service, Some("HTTPS".to_string()));
    assert_eq!(r.banner, None);
    let r = scan_port_ultra_fast(HOST, 3306, ConnectOutcome::Connected, 5);
    assert_eq!(r.service, None);
}

#[test]
fn banner_is_wanted_for_open_ports_on_request() {
    assert!(wants_banner(ConnectOutcome::Connected, true));
    assert!(!wants_banner(ConnectOutcome::Connected, false));
    assert!(!wants_banner(ConnectOutcome::Refused, true));
    assert!(!wants_banner(ConnectOutcome::TimedOut, true));
}

#[test]
fn standard_plan_is_one_batch() {
    let scanner = Scanner::new(config(vec![443, 80, 22], false));
    let plan = scanner.plan();
    assert_eq!(plan.batches, vec![vec![443, 80, 22]]);
    assert_eq!(plan.concurrency, 100);
    assert_eq!(plan.timeout_ms, 3000);
    assert_eq!(plan.task, TaskKind::Standard { grab_banners: true });
    assert_eq!(plan.target, HOST);
    assert_eq!(scanner.get_config().ports, vec![443, 80, 22]);
    assert_eq!(scanner.banner_grabber().timeout(), 5000);
}

#[test]
fn fast_plan_is_cut_into_batches_of_200() {
    let ports: Vec<u16> = (1..=1000).collect();
    let plan = Scanner::new(config(ports.clone(), true)).plan();
    assert_eq!(plan.task, TaskKind::Fast);
    assert_eq!(plan.batches.len(), 5);
    assert!(plan.batches.iter().all(|b| b.len() == 200));
    assert_eq!(plan.batches.concat(), ports);
    let batches = fast_batches(&(1..=401).collect());
    assert_eq!(batches.iter().map(|b| b.len()).collect::<Vec<_>>(), vec![200, 200, 1]);
    assert_eq!(batches[2], vec![401]);
    assert!(fast_batches(&vec![]).is_empty());
    assert_eq!(fast_batches(&vec![7]), vec![vec![7]]);
    assert_eq!(fast_batches(&(1..=200).collect()).len(), 1);
}

#[test]
fn single_closed_host() {
    let scanner = Scanner::new(config(vec![1, 2, 3], false));
    let results = scanner.scan(vec![closed(), closed(), closed()]);
    assert_eq!(results.len(), 3);
    assert_eq!(ports_of(&results), vec![1, 2, 3]);
    for r in &results {
        assert_eq!(r.target, HOST);
        assert!(!r.is_open);
        assert!(r.response_time <= 3000);
        assert!(r.service.is_none() && r.banner.is_none() && r.vulnerabilities.is_empty());
    }
}

#[test]
fn results_are_ordered_by_port_and_one_for_each_port() {
    let scanner = Scanner::new(config(vec![443, 80, 22, 8080], false));
    let results = scanner.scan(vec![closed(), open(None), closed(), open(None)]);
    assert_eq!(ports_of(&results), vec![22, 80, 443, 8080]);
    assert_eq!(results.iter().map(|r| r.is_open).collect::<Vec<_>>(), vec![false, true, false, true]);
    assert!(results.iter().all(|r| r.target == HOST));
    assert_eq!(results[1].service, Some("HTTP".to_string()));
    assert_eq!(results[3].service, Some("HTTP-Alt".to_string()));
}

#[test]
fn a_closed_port_keeps_nothing_of_its_report() {
    let scanner = Scanner::new(config(vec![22], false));
    let stale = Some(PortOutcome {
        outcome: ConnectOutcome::TimedOut,
        response_time: 3000,
        banner: Some("stale".to_string()),
    });
    let checker = VulnChecker::from_database(create_sample_database());
    let results = scanner.scan_with_vuln_checker(vec![stale], Some(&checker));
    assert_eq!(results.len(), 1);
    assert!(!results[0].is_open);
    assert!(results[0].service.is_none());
    assert!(results[0].banner.is_none());
    assert!(results[0].vulnerabilities.is_empty());
}

#[test]
fn failed_tasks_are_dropped() {
    let scanner = Scanner::new(config(vec![3, 2, 1], false));
    let results = scanner.scan(vec![closed(), None, closed()]);
    assert_eq!(ports_of(&results), vec![1, 3]);
    assert!(scanner.scan(vec![None, None]).is_empty());
    assert!(scanner.scan(vec![]).is_empty());
}

#[test]
fn reports_without_a_port_are_left_out() {
    let scanner = Scanner::new(config(vec![7, 5], false));
    let results = scanner.scan(vec![closed(), closed(), closed(), open(None)]);
    assert_eq!(ports_of(&results), vec![5, 7]);
    // Fewer reports than ports give the records of the first ports.
    let results = scanner.scan(vec![open(None)]);
    assert_eq!(ports_of(&results), vec![7]);
}

#[test]
fn records_of_one_port_keep_their_order() {
    let scanner = Scanner::new(config(vec![80, 80, 22], false));
    let results = scanner.scan(vec![open(Some("first")), open(Some("second")), closed()]);
    assert_eq!(ports_of(&results), vec![22, 80, 80]);
    assert_eq!(results[1].banner, Some("first".to_string()));
    assert_eq!(results[2].banner, Some("second".to_string()));
}

#[test]
fn banners_are_kept_only_on_request() {
    let mut c = config(vec![80], false);
    c.grab_banners = false;
    let results = Scanner::new(c).scan(vec![open(Some("x"))]);
    assert!(results[0].is_open);
    assert_eq!(results[0].banner, None);
}

#[test]
fn many_results_are_sorted() {
    let ports: Vec<u16> = (0..5000u32).map(|i| ((i * 7919) % 65521) as u16).collect();
    let scanner = Scanner::new(config(ports.clone(), false));
    let results = scanner.scan(ports.iter().map(|_| closed()).collect());
    let mut expected = ports.clone();
    expected.sort();
    assert_eq!(ports_of(&results), expected);
}

fn ssh_checker(pattern: &str) -> VulnChecker {
    VulnChecker::from_database(VulnDatabase {
        version: "1".to_string(),
        last_updated: "today".to_string(),
        patterns: vec![ServicePattern {
            pattern: pattern.to_string(),
            service_type: "SSH".to_string(),
            vulnerabilities: vec![Vulnerability {
                cve: "CVE-2018-15473".to_string(),
                description: "user enumeration".to_string(),
                severity: VulnSeverity::Medium,
                cvss_score: Some(53),
                published: None,
                references: vec![],
            }],
        }],
    })
}

fn grab(scanner: &Scanner, port: u16, reply: &[u8]) -> Option<String> {
    match scanner.banner_grabber().grab_banner(port, &Some(reply.to_vec())) {
        GrabStep::Done(line) => Some(line),
        GrabStep::Fallback(_) => None,
    }
}

fn scan_ssh(reply: &[u8], checker: &VulnChecker) -> ScanResult {
    let scanner = Scanner::new(config(vec![22], false));
    let report = PortOutcome {
        outcome: ConnectOutcome::Connected,
        response_time: 4,
        banner: grab(&scanner, 22, reply),
    };
    let mut results = scanner.scan_with_vuln_checker(vec![Some(report)], Some(checker));
    assert_eq!(results.len(), 1);
    results.remove(0)
}

#[test]
fn ssh_server_gets_its_vulnerabilities() {
    let result = scan_ssh(b"SSH-2.0-OpenSSH 7.4\r\n", &ssh_checker("openssh 7.4"));
    assert_eq!(result.banner, Some("SSH - SSH-2.0-OpenSSH 7.4".to_string()));
    assert_eq!(
        result.vulnerabilities.iter().map(|v| v.cve.as_str()).collect::<Vec<_>>(),
        vec!["CVE-2018-15473"]
    );
    assert_eq!(result.service, Some("SSH".to_string()));
    assert!(result.is_open);
}

#[test]
fn ssh_banner_with_underscore_matches_patterns_written_so() {
    let reply = b"SSH-2.0-OpenSSH_7.4\r\n";
    let result = scan_ssh(reply, &ssh_checker("openssh_7.4"));
    assert_eq!(result.banner, Some("SSH - SSH-2.0-OpenSSH_7.4".to_string()));
    assert_eq!(result.vulnerabilities.len(), 1);
    assert_eq!(result.vulnerabilities[0].cve, "CVE-2018-15473");
    // A pattern is a substring of the lowered banner: a space is no underscore.
    let result = scan_ssh(reply, &ssh_checker("openssh 7.4"));
    assert_eq!(result.banner, Some("SSH - SSH-2.0-OpenSSH_7.4".to_string()));
    assert!(result.vulnerabilities.is_empty());
}

#[test]
fn only_open_ports_with_banner_are_checked() {
    let checker = VulnChecker::from_database(create_sample_database());
    let scanner = Scanner::new(config(vec![24, 23, 22], false));
    let outcomes = vec![open(None), closed(), open(Some("openssh 7.4"))];
    let results = scanner.scan_with_vuln_checker(outcomes, Some(&checker));
    assert_eq!(ports_of(&results), vec![22, 23, 24]);
    assert_eq!(results[0].vulnerabilities.len(), 1);
    assert!(results[1].vulnerabilities.is_empty());
    assert!(results[2].vulnerabilities.is_empty());
    // Without a checker nothing is attached.
    let results = Scanner::new(config(vec![22], false)).scan(vec![open(Some("openssh 7.4"))]);
    assert!(results[0].vulnerabilities.is_empty());
}

#[test]
fn fast_mode_sorts_and_checks_nothing() {
    let checker = VulnChecker::from_database(create_sample_database());
    let ports: Vec<u16> = (1..=1000).rev().collect();
    let scanner = Scanner::new(config(ports.clone(), true));
    let outcomes: Vec<Option<PortOutcome>> = ports
        .iter()
        .map(|p| if p % 10 == 0 { None } else { open(Some("openssh 7.4")) })
        .collect();
    let results = scanner.scan_with_vuln_checker(outcomes, Some(&checker));
    assert_eq!(results.len(), 900);
    assert!(results.len() <= 1000);
    assert!(results.windows(2).all(|w| w[0].port < w[1].port));
    assert!(results.iter().all(|r| (1..=1000).contains(&r.port) && r.target == HOST));
    assert!(results.iter().all(|r| r.banner.is_none() && r.vulnerabilities.is_empty()));
    // The short service table is used.
    assert_eq!(results.iter().find(|r| r.port == 22).unwrap().service, Some("SSH".to_string()));
    assert_eq!(results.iter().find(|r| r.port == 995).unwrap().service, None);
}

fn step(timeout_ms: u64, outcomes: &[ConnectOutcome]) -> PingStep {
    ping_host(timeout_ms, &outcomes.to_vec())
}

#[test]
fn ping_probes_the_primary_ports_together() {
    match step(800, &[]) {
        PingStep::ProbeTogether { ports, timeout_ms } => {
            assert_eq!(ports, vec![80, 443, 22, 135, 445]);
            assert_eq!(timeout_ms, 400);
        }
        other => panic!("unexpected: {:?}", other),
    }
    match step(801, &[ConnectOutcome::TimedOut, ConnectOutcome::TimedOut]) {
        PingStep::ProbeTogether { ports, timeout_ms } => {
            assert_eq!(ports, vec![22, 135, 445]);
            assert_eq!(timeout_ms, 400);
        }
        other => panic!("unexpected: {:?}", other),
    }
}

#[test]
fn ping_is_alive_on_connection_or_refusal() {
    let t = ConnectOutcome::TimedOut;
    assert!(matches!(step(800, &[t, t, ConnectOutcome::Refused, t, t]), PingStep::Done(true)));
    assert!(matches!(step(800, &[ConnectOutcome::Connected, t, t, t, t]), PingStep::Done(true)));
    assert!(matches!(step(800, &[t, t, t, t, t, t, ConnectOutcome::Refused]), PingStep::Done(true)));
    assert!(matches!(step(800, &[ConnectOutcome::Connected]), PingStep::Done(true)));
}

#[test]
fn ping_falls_back_to_the_secondary_ports_one_by_one() {
    let t = ConnectOutcome::TimedOut;
    let secondary = [21, 25, 53, 110, 993, 995];
    for (k, expected) in secondary.iter().enumerate() {
        let outcomes = vec![t; 5 + k];
        match ping_host(803, &outcomes) {
            PingStep::ProbeNext { port, timeout_ms } => {
                assert_eq!(port, *expected);
                assert_eq!(timeout_ms, 200);
            }
            other => panic!("unexpected: {:?}", other),
        }
    }
    assert!(matches!(ping_host(800, &vec![t; 11]), PingStep::Done(false)));
    assert!(matches!(ping_host(800, &vec![t; 12]), PingStep::Done(false)));
}

#[test]
fn ping_sweep_keeps_the_alive_hosts() {
    let a = IpAddress::V4(1);
    let b = IpAddress::V4(2);
    let c = IpAddress::V6(3);
    assert_eq!(ping_sweep(&vec![a, b], &vec![true, false]), vec![a]);
    assert_eq!(ping_sweep(&vec![a, b, c], &vec![true, false, true]), vec![a, c]);
    assert_eq!(ping_sweep(&vec![a, b, c], &vec![false, true]), vec![b]);
    assert!(ping_sweep(&vec![a, b], &vec![false, false]).is_empty());
    assert!(ping_sweep(&vec![], &vec![true]).is_empty());
}

#[test]
fn clones_are_equal() {
    let checker = VulnChecker::from_database(create_sample_database());
    let scanner = Scanner::new(config(vec![22], false));
    let results = scanner.scan_with_vuln_checker(vec![open(Some("openssh 7.4"))], Some(&checker));
    let copy = results[0].clone();
    assert_eq!(copy.port, 22);
    assert_eq!(copy.banner, results[0].banner);
    assert_eq!(copy.service, results[0].service);
    assert_eq!(copy.vulnerabilities.len(), 1);
    assert_eq!(copy.vulnerabilities[0].cve, "CVE-2018-15473");
    let c = config(vec![1, 2], true).clone();
    assert_eq!(c.ports, vec![1, 2]);
    assert!(c.fast_mode);
}

#[test]
fn http_server_scenario() {
    let scanner = Scanner::new(config(vec![80], false));
    let reply = b"HTTP/1.1 200 OK\r\nServer: Test/1.0\r\n\r\n";
    let report = PortOutcome {
        outcome: ConnectOutcome::Connected,
        response_time: 3,
        banner: grab(&scanner, 80, reply),
    };
    let results = scanner.scan(vec![Some(report)]);
    assert_eq!(results.len(), 1);
    assert_eq!(results[0].target, HOST);
    assert_eq!(results[0].port, 80);
    assert!(results[0].is_open);
    assert_eq!(results[0].service, Some("HTTP".to_string()));
    assert_eq!(results[0].banner, Some("HTTP - HTTP/1.1 200 OK Server: Test/1.0".to_string()));
}

/// Runs the reachability test against a host that answers as `answer` tells.
fn is_alive(answer: fn(u16) -> ConnectOutcome) -> bool {
    let mut outcomes = Vec::new();
    loop {
        match ping_host(800, &outcomes) {
            PingStep::Done(alive) => return alive,
            PingStep::ProbeTogether { ports, .. } => {
                for port in ports {
                    outcomes.push(answer(port));
                }
            }
            PingStep::ProbeNext { port, .. } => outcomes.push(answer(port)),
        }
    }
}

#[test]
fn ping_sweep_scenario() {
    let a = IpAddress::V4(0x0a00_0001);
    let b = IpAddress::V4(0x0a00_0002);
    let a_alive = is_alive(|port| if port == 80 { ConnectOutcome::Connected } else { ConnectOutcome::TimedOut });
    let b_alive = is_alive(|_| ConnectOutcome::TimedOut);
    assert!(a_alive);
    assert!(!b_alive);
    assert_eq!(ping_sweep(&vec![a, b], &vec![a_alive, b_alive]), vec![a]);
    // A host that refuses only a secondary port is alive too.
    assert!(is_alive(|port| if port == 995 { ConnectOutcome::Refused } else { ConnectOutcome::TimedOut }));
}
