use nullscan::ports::PortSpecError;
use nullscan::targets::IpAddress;
use nullscan::web::{
    engine_config, get_summary, is_expired, request_ports, scan_config, scan_description,
    ExportRequest, RequestError, ScanFigures, ScanProgress, ScanRequest, ScanStatus, ScanSummary,
};

fn request() -> ScanRequest {
    ScanRequest {
        target: "10.0.0.1".to_string(),
        ports: None,
        top100: false,
        top1000: false,
        concurrency: None,
        max_hosts: None,
        ping_sweep: false,
        timeout: None,
        ping_timeout: None,
        banners: false,
        vuln_check: false,
        fast_mode: false,
        name: None,
        description: None,
    }
}

#[test]
fn request_ports_by_preset_or_specification() {
    let mut r = request();
    assert_eq!(request_ports(&r), Err(RequestError::NoPorts));
    r.ports = Some("80,1-3,443".to_string());
    assert_eq!(request_ports(&r), Ok(vec![80, 1, 2, 3, 443]));
    r.ports = Some("80,1-2-3,443".to_string());
    assert_eq!(request_ports(&r), Err(RequestError::InvalidPorts(PortSpecError::TooManyParts)));
    r.ports = Some("http".to_string());
    assert_eq!(request_ports(&r), Err(RequestError::InvalidPorts(PortSpecError::MalformedNumber)));
    r.ports = Some("70000".to_string());
    assert_eq!(request_ports(&r), Err(RequestError::InvalidPorts(PortSpecError::OutOfRange)));
    r.top1000 = true;
    assert_eq!(request_ports(&r).unwrap().len(), 1000);
    r.top100 = true;
    assert_eq!(request_ports(&r).unwrap().len(), 100);
}

#[test]
fn scan_settings_have_defaults() {
    let mut r = request();
    let c = scan_config(&r, vec![22]);
    assert_eq!(c.target, "10.0.0.1");
    assert_eq!(c.ports, vec![22]);
    assert_eq!((c.concurrency, c.max_hosts, c.timeout, c.ping_timeout), (100, 1, 3000, 800));
    r.concurrency = Some(7);
    r.max_hosts = Some(3);
    r.timeout = Some(10);
    r.ping_timeout = Some(20);
    r.banners = true;
    r.fast_mode = true;
    let c = scan_config(&r, vec![]);
    assert_eq!((c.concurrency, c.max_hosts, c.timeout, c.ping_timeout), (7, 3, 10, 20));
    assert!(c.banners && c.fast_mode && !c.vuln_check && !c.ping_sweep);
    let e = engine_config(&c, IpAddress::V4(5));
    assert!(e.quiet && e.fast_mode && e.grab_banners);
    assert_eq!((e.concurrency, e.timeout_ms), (7, 10));
    assert_eq!(e.target, IpAddress::V4(5));
}

#[test]
fn descriptions() {
    let mut r = request();
    assert_eq!(scan_description(&r), "Scan of 10.0.0.1");
    r.description = Some("mine".to_string());
    assert_eq!(scan_description(&r), "mine");
}

#[test]
fn progress() {
    assert_eq!(ScanStatus::default(), ScanStatus::Pending);
    let none = ScanProgress::default();
    assert_eq!((none.total_hosts, none.total_ports, none.open_ports), (0, 0, 0));
    let p = ScanProgress::started(3, 100);
    assert_eq!((p.total_hosts, p.total_ports, p.hosts_completed, p.ports_scanned), (3, 300, 0, 0));
    assert_eq!(ScanProgress::started(usize::MAX, 2).total_ports, usize::MAX);
    let done = p.completed(17);
    assert_eq!((done.hosts_completed, done.ports_scanned, done.open_ports), (3, 300, 17));
    assert_eq!((done.total_hosts, done.total_ports), (3, 300));
}

#[test]
fn finished_scans_expire_after_a_day() {
    let day = 24 * 3600;
    assert!(is_expired(ScanStatus::Completed, Some(day + 1)));
    assert!(is_expired(ScanStatus::Failed, Some(day + 1)));
    // Half an hour past the day is past the day.
    assert!(is_expired(ScanStatus::Completed, Some(day + 1800)));
    assert!(!is_expired(ScanStatus::Completed, Some(day)));
    assert!(!is_expired(ScanStatus::Completed, Some(day - 1)));
    assert!(!is_expired(ScanStatus::Completed, None));
    assert!(!is_expired(ScanStatus::Stopped, Some(100 * day)));
    assert!(!is_expired(ScanStatus::Running, Some(100 * day)));
    assert!(!is_expired(ScanStatus::Pending, Some(100 * day)));
    assert!(!is_expired(ScanStatus::Failed, Some(-1)));
}

fn figures(status: ScanStatus, hosts: usize, ports: usize, open: usize, vulnerabilities: usize) -> ScanFigures {
    ScanFigures {
        status,
        progress: ScanProgress {
            hosts_completed: hosts,
            total_hosts: hosts,
            ports_scanned: ports,
            total_ports: ports,
            open_ports: open,
        },
        vulnerabilities,
    }
}

#[test]
fn overview_sums_up_the_scans() {
    let scans = vec![
        figures(ScanStatus::Running, 1, 10, 2, 0),
        figures(ScanStatus::Completed, 2, 20, 3, 4),
        figures(ScanStatus::Failed, 0, 0, 0, 0),
        figures(ScanStatus::Completed, 3, 30, 5, 1),
        figures(ScanStatus::Stopped, 1, 5, 1, 0),
        figures(ScanStatus::Pending, 0, 0, 0, 0),
    ];
    assert_eq!(
        get_summary(&scans),
        ScanSummary {
            total_scans: 6,
            active_scans: 1,
            completed_scans: 2,
            failed_scans: 1,
            total_hosts_scanned: 7,
            total_ports_scanned: 65,
            total_open_ports: 11,
            total_vulnerabilities: 5,
        }
    );
    let huge = vec![figures(ScanStatus::Completed, usize::MAX, 1, 1, 1); 2];
    assert_eq!(get_summary(&huge).total_hosts_scanned, usize::MAX);
    assert_eq!(get_summary(&huge).total_ports_scanned, 2);
    assert_eq!(get_summary(&vec![]).total_scans, 0);
}

#[test]
fn export_request_holds_its_fields() {
    let e = ExportRequest {
        format: "csv".to_string(),
        include_closed: true,
        include_banners: false,
        include_vulnerabilities: true,
    };
    assert_eq!(e.format, "csv");
    assert!(e.include_closed && !e.include_banners && e.include_vulnerabilities);
}
