//! The dashboard's records and the rules it applies to them: how a request
//! becomes a scan, how progress is counted, what the overview sums up, and
//! when a finished scan is dropped.

use crate::ports::{parse_port_spec, port_list, PortSpecError};
use crate::presets::{get_top_ports, PortPreset};
use crate::run::{
    lists_preset, DEFAULT_CONCURRENCY, DEFAULT_MAX_HOSTS, DEFAULT_PING_TIMEOUT_MS,
    DEFAULT_TIMEOUT_MS,
};
use crate::targets::IpAddress;
use crate::text::{append_str, from_chars, to_chars};
use crate::vuln::saturated;
use vstd::prelude::*;

verus! {

/// The seconds for which a finished scan is kept: 24 hours.
pub const KEEP_SECONDS: i64 = 86400;

/// A request to start a scan.
#[derive(Debug)]
pub struct ScanRequest {
    pub target: String,
    pub ports: Option<String>,
    pub top100: bool,
    pub top1000: bool,
    pub concurrency: Option<usize>,
    pub max_hosts: Option<usize>,
    pub ping_sweep: bool,
    pub timeout: Option<u64>,
    pub ping_timeout: Option<u64>,
    pub banners: bool,
    pub vuln_check: bool,
    pub fast_mode: bool,
    pub name: Option<String>,
    pub description: Option<String>,
}

/// The settings of a scan that the dashboard started.
#[derive(Debug)]
pub struct ScanConfig {
    pub target: String,
    pub ports: Vec<u16>,
    pub concurrency: usize,
    pub max_hosts: usize,
    pub ping_sweep: bool,
    pub timeout: u64,
    pub ping_timeout: u64,
    pub banners: bool,
    pub vuln_check: bool,
    pub fast_mode: bool,
}

/// Where a scan stands.
#[derive(Debug, Clone, Copy, PartialEq, Eq, Structural, Hash)]
pub enum ScanStatus {
    Pending,
    Running,
    Completed,
    Failed,
    Stopped,
}

impl Default for ScanStatus {
    fn default() -> (r: Self)
        ensures
            r == ScanStatus::Pending,
    {
        ScanStatus::Pending
    }
}

/// How far a scan has come.
#[derive(Debug, Clone, Copy, PartialEq, Eq, Structural)]
pub struct ScanProgress {
    pub hosts_completed: usize,
    pub total_hosts: usize,
    pub ports_scanned: usize,
    pub total_ports: usize,
    pub open_ports: usize,
}

/// The overview of all scans.
#[derive(Debug, Clone, Copy, PartialEq, Eq, Structural)]
pub struct ScanSummary {
    pub total_scans: usize,
    pub active_scans: usize,
    pub completed_scans: usize,
    pub failed_scans: usize,
    pub total_hosts_scanned: usize,
    pub total_ports_scanned: usize,
    pub total_open_ports: usize,
    pub total_vulnerabilities: usize,
}

/// A request to export a scan.
#[derive(Debug)]
pub struct ExportRequest {
    pub format: String,
    pub include_closed: bool,
    pub include_banners: bool,
    pub include_vulnerabilities: bool,
}

/// Why a request was refused.
#[derive(Debug, Clone, Copy, PartialEq, Eq, Structural, Hash)]
pub enum RequestError {
    /// The request names neither a preset nor ports.
    NoPorts,
    /// The port specification is rejected.
    InvalidPorts(PortSpecError),
}

/// What the overview reads of one scan.
#[derive(Debug, Clone, Copy, PartialEq, Eq, Structural)]
pub struct ScanFigures {
    pub status: ScanStatus,
    pub progress: ScanProgress,
    pub vulnerabilities: usize,
}

impl Default for ScanProgress {
    fn default() -> (r: Self)
        ensures
            r == ScanProgress::none(),
    {
        ScanProgress {
            hosts_completed: 0,
            total_hosts: 0,
            ports_scanned: 0,
            total_ports: 0,
            open_ports: 0,
        }
    }
}

impl ScanProgress {
    /// The progress of a scan that has not begun.
    pub open spec fn none() -> ScanProgress {
        ScanProgress {
            hosts_completed: 0,
            total_hosts: 0,
            ports_scanned: 0,
            total_ports: 0,
            open_ports: 0,
        }
    }

    /// The progress of a scan that begins: its totals are known, nothing is
    /// done. The number of ports is that of every port on every host, or
    /// `usize::MAX` if that does not fit.
    pub fn started(targets: usize, ports: usize) -> (r: Self)
        ensures
            r == (ScanProgress {
                total_hosts: targets,
                total_ports: saturated((ports * targets) as nat),
                ..ScanProgress::none()
            }),
    {
        let total_ports = match ports.checked_mul(targets) {
            Some(n) => n,
            None => usize::MAX,
        };
        ScanProgress {
            hosts_completed: 0,
            total_hosts: targets,
            ports_scanned: 0,
            total_ports,
            open_ports: 0,
        }
    }

    /// The progress of a scan that is complete: all is done, and
    /// `open_ports` ports were found open.
    pub fn completed(&self, open_ports: usize) -> (r: Self)
        ensures
            r == (ScanProgress {
                hosts_completed: self.total_hosts,
                ports_scanned: self.total_ports,
                open_ports,
                ..*self
            }),
    {
        ScanProgress {
            hosts_completed: self.total_hosts,
            total_hosts: self.total_hosts,
            ports_scanned: self.total_ports,
            total_ports: self.total_ports,
            open_ports,
        }
    }
}

/// The ports that a request asks for: the top-100 preset if chosen, else the
/// top-1000 preset if chosen, else those of its port specification; a request
/// that names none of these, or whose specification is rejected, is refused.
pub fn request_ports(request: &ScanRequest) -> (r: Result<Vec<u16>, RequestError>)
    ensures
        request.top100 ==> r.is_ok() && lists_preset(r.unwrap()@, PortPreset::Top100),
        !request.top100 && request.top1000 ==> r.is_ok() && lists_preset(
            r.unwrap()@,
            PortPreset::Top1000,
        ),
        !request.top100 && !request.top1000 ==> match request.ports {
            None => r == Err::<Vec<u16>, RequestError>(RequestError::NoPorts),
            Some(spec) => match r {
                Ok(ports) => port_list(spec@) == Ok::<Seq<u16>, PortSpecError>(ports@),
                Err(e) => exists|cause: PortSpecError|
                    e == RequestError::InvalidPorts(cause) && port_list(spec@) == Err::<
                        Seq<u16>,
                        PortSpecError,
                    >(cause),
            },
        },
{
    if request.top100 {
        Ok(get_top_ports(PortPreset::Top100))
    } else if request.top1000 {
        Ok(get_top_ports(PortPreset::Top1000))
    } else {
        match &request.ports {
            Some(spec) => match parse_port_spec(spec.as_str()) {
                Ok(ports) => Ok(ports),
                Err(e) => Err(RequestError::InvalidPorts(e)),
            },
            None => Err(RequestError::NoPorts),
        }
    }
}

/// The value of an optional setting, or its default.
pub open spec fn setting<T>(value: Option<T>, default: T) -> T {
    match value {
        Some(v) => v,
        None => default,
    }
}

/// The settings of the scan that a request asks for, with the defaults for
/// what it leaves open.
pub fn scan_config(request: &ScanRequest, ports: Vec<u16>) -> (r: ScanConfig)
    ensures
        r.target@ == request.target@,
        r.ports == ports,
        r.concurrency == setting(request.concurrency, DEFAULT_CONCURRENCY),
        r.max_hosts == setting(request.max_hosts, DEFAULT_MAX_HOSTS),
        r.ping_sweep == request.ping_sweep,
        r.timeout == setting(request.timeout, DEFAULT_TIMEOUT_MS),
        r.ping_timeout == setting(request.ping_timeout, DEFAULT_PING_TIMEOUT_MS),
        r.banners == request.banners,
        r.vuln_check == request.vuln_check,
        r.fast_mode == request.fast_mode,
{
    ScanConfig {
        target: request.target.clone(),
        ports,
        concurrency: match request.concurrency {
            Some(v) => v,
            None => DEFAULT_CONCURRENCY,
        },
        max_hosts: match request.max_hosts {
            Some(v) => v,
            None => DEFAULT_MAX_HOSTS,
        },
        ping_sweep: request.ping_sweep,
        timeout: match request.timeout {
            Some(v) => v,
            None => DEFAULT_TIMEOUT_MS,
        },
        ping_timeout: match request.ping_timeout {
            Some(v) => v,
            None => DEFAULT_PING_TIMEOUT_MS,
        },
        banners: request.banners,
        vuln_check: request.vuln_check,
        fast_mode: request.fast_mode,
    }
}

/// The description of a scan: the one requested, or `Scan of` and the target.
pub fn scan_description(request: &ScanRequest) -> (r: String)
    ensures
        r@ == match request.description {
            Some(d) => d@,
            None => "Scan of "@ + request.target@,
        },
{
    match &request.description {
        Some(d) => d.clone(),
        None => {
            let mut text = to_chars("Scan of ");
            append_str(&mut text, request.target.as_str());
            from_chars(&text)
        },
    }
}

/// The configuration of the engine for a dashboard scan of one host: that of
/// the scan's settings, and quiet.
pub fn engine_config(config: &ScanConfig, target: IpAddress) -> (r: crate::scanner::ScanConfig)
    ensures
        r.target == target,
        r.ports@ == config.ports@,
        r.concurrency == config.concurrency,
        r.timeout_ms == config.timeout,
        r.grab_banners == config.banners,
        r.quiet,
        r.fast_mode == config.fast_mode,
{
    crate::scanner::ScanConfig {
        target,
        ports: config.ports.clone(),
        concurrency: config.concurrency,
        timeout_ms: config.timeout,
        grab_banners: config.banners,
        quiet: true,
        fast_mode: config.fast_mode,
    }
}

/// Whether a scan is dropped from the dashboard: it is completed or failed,
/// and has been so for more than 24 hours. `seconds_since_completion` is the
/// age of its completion in seconds, if it has completed.
pub fn is_expired(status: ScanStatus, seconds_since_completion: Option<i64>) -> (r: bool)
    ensures
        r == ((status == ScanStatus::Completed || status == ScanStatus::Failed)
            && seconds_since_completion.is_some() && seconds_since_completion.unwrap()
            > KEEP_SECONDS),
{
    if status == ScanStatus::Completed || status == ScanStatus::Failed {
        match seconds_since_completion {
            Some(seconds) => seconds > KEEP_SECONDS,
            None => false,
        }
    } else {
        false
    }
}

/// The number of scans with the given status.
pub open spec fn with_status(scans: Seq<ScanFigures>, status: ScanStatus) -> nat
    decreases scans.len(),
{
    if scans.len() == 0 {
        0
    } else if scans.last().status == status {
        with_status(scans.drop_last(), status) + 1
    } else {
        with_status(scans.drop_last(), status)
    }
}

/// The sum of a figure over the scans.
pub open spec fn total(scans: Seq<ScanFigures>, figure: spec_fn(ScanFigures) -> usize) -> nat
    decreases scans.len(),
{
    if scans.len() == 0 {
        0
    } else {
        total(scans.drop_last(), figure) + figure(scans.last()) as nat
    }
}

/// No more scans have a status than there are scans.
pub proof fn lemma_with_status_bound(scans: Seq<ScanFigures>, status: ScanStatus)
    ensures
        with_status(scans, status) <= scans.len(),
    decreases scans.len(),
{
    if scans.len() > 0 {
        lemma_with_status_bound(scans.drop_last(), status);
    }
}

/// The overview of the scans: how many there are, how many are running,
/// completed and failed, and the sums of their figures; a sum that does not
/// fit stays at `usize::MAX`.
pub fn get_summary(scans: &Vec<ScanFigures>) -> (r: ScanSummary)
    ensures
        r.total_scans == scans.len(),
        r.active_scans == with_status(scans@, ScanStatus::Running),
        r.completed_scans == with_status(scans@, ScanStatus::Completed),
        r.failed_scans == with_status(scans@, ScanStatus::Failed),
        r.total_hosts_scanned == saturated(
            total(scans@, |s: ScanFigures| s.progress.hosts_completed),
        ),
        r.total_ports_scanned == saturated(
            total(scans@, |s: ScanFigures| s.progress.ports_scanned),
        ),
        r.total_open_ports == saturated(total(scans@, |s: ScanFigures| s.progress.open_ports)),
        r.total_vulnerabilities == saturated(total(scans@, |s: ScanFigures| s.vulnerabilities)),
{
    let mut active: usize = 0;
    let mut completed: usize = 0;
    let mut failed: usize = 0;
    let mut hosts: usize = 0;
    let mut ports: usize = 0;
    let mut open: usize = 0;
    let mut vulnerabilities: usize = 0;
    let mut i: usize = 0;
    assert(scans@.take(0) =~= Seq::<ScanFigures>::empty());
    while i < scans.len()
        invariant
            i <= scans.len(),
            active <= i,
            completed <= i,
            failed <= i,
            active == with_status(scans@.take(i as int), ScanStatus::Running),
            completed == with_status(scans@.take(i as int), ScanStatus::Completed),
            failed == with_status(scans@.take(i as int), ScanStatus::Failed),
            hosts == saturated(
                total(scans@.take(i as int), |s: ScanFigures| s.progress.hosts_completed),
            ),
            ports == saturated(
                total(scans@.take(i as int), |s: ScanFigures| s.progress.ports_scanned),
            ),
            open == saturated(total(scans@.take(i as int), |s: ScanFigures| s.progress.open_ports)),
            vulnerabilities == saturated(
                total(scans@.take(i as int), |s: ScanFigures| s.vulnerabilities),
            ),
        decreases scans.len() - i,
    {
        assert(scans@.take(i + 1).drop_last() =~= scans@.take(i as int));
        assert(scans@.take(i + 1).last() == scans@[i as int]);
        let scan = scans[i];
        if scan.status == ScanStatus::Running {
            active += 1;
        } else if scan.status == ScanStatus::Completed {
            completed += 1;
        } else if scan.status == ScanStatus::Failed {
            failed += 1;
        }
        hosts = hosts.saturating_add(scan.progress.hosts_completed);
        ports = ports.saturating_add(scan.progress.ports_scanned);
        open = open.saturating_add(scan.progress.open_ports);
        vulnerabilities = vulnerabilities.saturating_add(scan.vulnerabilities);
        i += 1;
    }
    assert(scans@.take(scans.len() as int) =~= scans@);
    ScanSummary {
        total_scans: scans.len(),
        active_scans: active,
        completed_scans: completed,
        failed_scans: failed,
        total_hosts_scanned: hosts,
        total_ports_scanned: ports,
        total_open_ports: open,
        total_vulnerabilities: vulnerabilities,
    }
}

} // verus!
