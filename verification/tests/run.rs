use nullscan::ports::PortSpecError;
use nullscan::run::{apply_fast_mode, host_config, select_ports, wants_ping_sweep, RunOptions};
use nullscan::targets::IpAddress;

#[test]
fn default_options() {
    let o = RunOptions::default();
    assert_eq!(o.concurrency, 100);
    assert_eq!(o.max_hosts, 1);
    assert_eq!(o.timeout, 3000);
    assert_eq!(o.ping_timeout, 800);
    assert!(!o.ping_sweep && !o.banners && !o.vuln_check && !o.verbose && !o.quiet && !o.fast_mode);
}

#[test]
fn fast_mode_rewrites_the_options() {
    let given = RunOptions {
        concurrency: 10,
        max_hosts: 4,
        ping_sweep: true,
        timeout: 5000,
        ping_timeout: 700,
        banners: true,
        vuln_check: true,
        verbose: true,
        quiet: false,
        fast_mode: true,
    };
    let fast = apply_fast_mode(given, 8);
    assert_eq!(fast.concurrency, 1200);
    assert_eq!(fast.timeout, 95);
    assert!(!fast.banners && !fast.vuln_check && !fast.verbose);
    assert!(fast.quiet && fast.fast_mode);
    assert_eq!(fast.max_hosts, 4);
    assert_eq!(fast.ping_timeout, 700);
    assert!(fast.ping_sweep);
    assert_eq!(apply_fast_mode(given, usize::MAX).concurrency, usize::MAX);
    assert_eq!(apply_fast_mode(given, 0).concurrency, 0);
    let slow = RunOptions { fast_mode: false, ..given };
    assert_eq!(apply_fast_mode(slow, 8), slow);
}

#[test]
fn ping_sweep_is_skipped_for_one_target_in_fast_mode() {
    let mut o = RunOptions::default();
    assert!(!wants_ping_sweep(&o, 5));
    o.ping_sweep = true;
    assert!(wants_ping_sweep(&o, 1));
    assert!(wants_ping_sweep(&o, 5));
    o.fast_mode = true;
    assert!(!wants_ping_sweep(&o, 1));
    assert!(wants_ping_sweep(&o, 2));
    assert!(wants_ping_sweep(&o, 0));
}

#[test]
fn port_choice() {
    let c = select_ports(true, true, Some("1-3")).unwrap();
    assert_eq!(c.ports.len(), 100);
    assert!(!c.defaulted);
    let c = select_ports(false, true, Some("1-3")).unwrap();
    assert_eq!(c.ports.len(), 1000);
    assert!(!c.defaulted);
    let c = select_ports(false, false, Some("1-3")).unwrap();
    assert_eq!(c.ports, vec![1, 2, 3]);
    assert!(!c.defaulted);
    let c = select_ports(false, false, None).unwrap();
    assert_eq!(c.ports.len(), 100);
    assert!(c.defaulted);
    assert_eq!(select_ports(false, false, Some("1-2-3")).map(|c| c.ports), Err(PortSpecError::TooManyParts));
}

#[test]
fn host_configuration() {
    let mut o = RunOptions::default();
    o.banners = true;
    o.quiet = true;
    let c = host_config(&o, IpAddress::V4(9), &vec![80, 443]);
    assert_eq!(c.target, IpAddress::V4(9));
    assert_eq!(c.ports, vec![80, 443]);
    assert_eq!(c.concurrency, 100);
    assert_eq!(c.timeout_ms, 3000);
    assert!(c.grab_banners && c.quiet && !c.fast_mode);
}
