//! The scan engine's decisions: what to probe, in which batches, and what the
//! outcomes of the probes amount to.
//!
//! The caller owns the sockets and the tasks. It performs what a plan or a step
//! asks for and hands back what happened; the records are made here, and every
//! rule on them is stated here.

use crate::banner::BannerGrabber;
use crate::sort::{is_stable_sort_of, select, sorted, stable_sort, Keyed, SortKey};
use crate::targets::IpAddress;
use crate::vuln::{
    clone_vulnerabilities, correlate, ServicePatternView, VulnChecker, Vulnerability,
    VulnerabilityView,
};
use vstd::prelude::*;

verus! {

/// The number of ports that the fast mode probes as one batch.
pub const FAST_BATCH_SIZE: usize = 200;

/// The ports that are probed together first to tell whether a host is alive.
pub const PRIMARY_PING_PORTS: [u16; 5] = [80, 443, 22, 135, 445];

/// The ports that are probed one by one when the first probes all timed out.
pub const SECONDARY_PING_PORTS: [u16; 6] = [21, 25, 53, 110, 993, 995];

/// How a connection attempt ended.
#[derive(Debug, Clone, Copy, PartialEq, Eq, Structural, Hash)]
pub enum ConnectOutcome {
    /// The connection was established.
    Connected,
    /// The attempt failed before its deadline, as when the host refuses it.
    Refused,
    /// The deadline passed.
    TimedOut,
}

impl ConnectOutcome {
    /// Whether the outcome shows that the host is alive: it answered, be it
    /// with a refusal.
    pub open spec fn shows_life(self) -> bool {
        self == ConnectOutcome::Connected || self == ConnectOutcome::Refused
    }
}

/// What to scan and how.
#[derive(Debug)]
pub struct ScanConfig {
    pub target: IpAddress,
    pub ports: Vec<u16>,
    pub concurrency: usize,
    pub timeout_ms: u64,
    pub grab_banners: bool,
    pub quiet: bool,
    pub fast_mode: bool,
}

impl Clone for ScanConfig {
    fn clone(&self) -> (r: Self)
        ensures
            r.target == self.target,
            r.ports@ == self.ports@,
            r.concurrency == self.concurrency,
            r.timeout_ms == self.timeout_ms,
            r.grab_banners == self.grab_banners,
            r.quiet == self.quiet,
            r.fast_mode == self.fast_mode,
    {
        ScanConfig {
            target: self.target,
            ports: self.ports.clone(),
            concurrency: self.concurrency,
            timeout_ms: self.timeout_ms,
            grab_banners: self.grab_banners,
            quiet: self.quiet,
            fast_mode: self.fast_mode,
        }
    }
}

/// The record of one probed port. `response_time` is in milliseconds.
#[derive(Debug)]
pub struct ScanResult {
    pub target: IpAddress,
    pub port: u16,
    pub is_open: bool,
    pub service: Option<String>,
    pub banner: Option<String>,
    pub response_time: u64,
    pub vulnerabilities: Vec<Vulnerability>,
}

/// What a `ScanResult` holds.
pub struct ScanResultView {
    pub target: IpAddress,
    pub port: u16,
    pub is_open: bool,
    pub service: Option<Seq<char>>,
    pub banner: Option<Seq<char>>,
    pub response_time: u64,
    pub vulnerabilities: Seq<VulnerabilityView>,
}

impl DeepView for ScanResult {
    type V = ScanResultView;

    open spec fn deep_view(&self) -> ScanResultView {
        ScanResultView {
            target: self.target,
            port: self.port,
            is_open: self.is_open,
            service: self.service.deep_view(),
            banner: self.banner.deep_view(),
            response_time: self.response_time,
            vulnerabilities: self.vulnerabilities.deep_view(),
        }
    }
}

impl ScanResultView {
    /// A closed port has no service, no banner and no vulnerabilities.
    pub open spec fn pure(self) -> bool {
        !self.is_open ==> self.service.is_none() && self.banner.is_none()
            && self.vulnerabilities.len() == 0
    }

    /// The record with the vulnerabilities that the patterns correlate its
    /// banner with; unchanged if the port is closed or has no banner.
    pub open spec fn checked(self, patterns: Seq<ServicePatternView>) -> ScanResultView {
        if self.is_open && self.banner.is_some() {
            ScanResultView { vulnerabilities: correlate(patterns, self.banner.unwrap()), ..self }
        } else {
            self
        }
    }
}

fn clone_text(text: &Option<String>) -> (r: Option<String>)
    ensures
        r.deep_view() == text.deep_view(),
{
    match text {
        Some(s) => Some(s.clone()),
        None => None,
    }
}

impl Clone for ScanResult {
    fn clone(&self) -> (r: Self)
        ensures
            r.deep_view() == self.deep_view(),
    {
        ScanResult {
            target: self.target,
            port: self.port,
            is_open: self.is_open,
            service: clone_text(&self.service),
            banner: clone_text(&self.banner),
            response_time: self.response_time,
            vulnerabilities: clone_vulnerabilities(&self.vulnerabilities),
        }
    }
}

/// Records are ordered by port.
impl SortKey for ScanResult {
    open spec fn key(&self) -> int {
        self.port as int
    }
}

impl Keyed for ScanResult {
    fn key_value(&self) -> (k: u64) {
        self.port as u64
    }
}

impl SortKey for ScanResultView {
    open spec fn key(&self) -> int {
        self.port as int
    }
}

/// The name of the service that usually listens on a port.
pub open spec fn service_name(port: u16) -> Option<Seq<char>> {
    if port == 21 {
        Some("FTP"@)
    } else if port == 22 {
        Some("SSH"@)
    } else if port == 23 {
        Some("Telnet"@)
    } else if port == 25 {
        Some("SMTP"@)
    } else if port == 53 {
        Some("DNS"@)
    } else if port == 80 {
        Some("HTTP"@)
    } else if port == 110 {
        Some("POP3"@)
    } else if port == 135 {
        Some("RPC"@)
    } else if port == 139 {
        Some("NetBIOS"@)
    } else if port == 143 {
        Some("IMAP"@)
    } else if port == 443 {
        Some("HTTPS"@)
    } else if port == 445 {
        Some("SMB"@)
    } else if port == 993 {
        Some("IMAPS"@)
    } else if port == 995 {
        Some("POP3S"@)
    } else if port == 1433 {
        Some("MSSQL"@)
    } else if port == 3306 {
        Some("MySQL"@)
    } else if port == 3389 {
        Some("RDP"@)
    } else if port == 5432 {
        Some("PostgreSQL"@)
    } else if port == 5900 {
        Some("VNC"@)
    } else if port == 8080 {
        Some("HTTP-Alt"@)
    } else if port == 8443 {
        Some("HTTPS-Alt"@)
    } else {
        None
    }
}

/// The name of the service on a port, by the short table of the fast mode.
pub open spec fn service_name_fast(port: u16) -> Option<Seq<char>> {
    if port == 22 || port == 80 || port == 443 || port == 21 || port == 25 || port == 53 || port
        == 135 || port == 445 || port == 3389 {
        service_name(port)
    } else {
        None
    }
}

fn some_name(name: &str) -> (r: Option<String>)
    ensures
        r.deep_view() == Some(name@),
{
    Some(name.to_string())
}

/// The name of the service that usually listens on a port.
pub fn get_service_name(port: u16) -> (r: Option<String>)
    ensures
        r.deep_view() == service_name(port),
{
    match port {
        21 => some_name("FTP"),
        22 => some_name("SSH"),
        23 => some_name("Telnet"),
        25 => some_name("SMTP"),
        53 => some_name("DNS"),
        80 => some_name("HTTP"),
        110 => some_name("POP3"),
        135 => some_name("RPC"),
        139 => some_name("NetBIOS"),
        143 => some_name("IMAP"),
        443 => some_name("HTTPS"),
        445 => some_name("SMB"),
        993 => some_name("IMAPS"),
        995 => some_name("POP3S"),
        1433 => some_name("MSSQL"),
        3306 => some_name("MySQL"),
        3389 => some_name("RDP"),
        5432 => some_name("PostgreSQL"),
        5900 => some_name("VNC"),
        8080 => some_name("HTTP-Alt"),
        8443 => some_name("HTTPS-Alt"),
        _ => None,
    }
}

/// The name of the service on a port, by the short table of the fast mode.
pub fn get_service_name_fast(port: u16) -> (r: Option<String>)
    ensures
        r.deep_view() == service_name_fast(port),
{
    match port {
        22 => some_name("SSH"),
        80 => some_name("HTTP"),
        443 => some_name("HTTPS"),
        21 => some_name("FTP"),
        25 => some_name("SMTP"),
        53 => some_name("DNS"),
        135 => some_name("RPC"),
        445 => some_name("SMB"),
        3389 => some_name("RDP"),
        _ => None,
    }
}

/// Whether a banner is to be grabbed after a connection attempt.
pub fn wants_banner(outcome: ConnectOutcome, grab_banners: bool) -> (r: bool)
    ensures
        r == (grab_banners && outcome == ConnectOutcome::Connected),
{
    grab_banners && outcome == ConnectOutcome::Connected
}

/// The record that a port probe yields.
pub open spec fn port_result(
    target: IpAddress,
    port: u16,
    outcome: ConnectOutcome,
    response_time: u64,
    grab_banners: bool,
    banner: Option<Seq<char>>,
) -> ScanResultView {
    let is_open = outcome == ConnectOutcome::Connected;
    ScanResultView {
        target,
        port,
        is_open,
        service: if is_open {
            service_name(port)
        } else {
            None
        },
        banner: if is_open && grab_banners {
            banner
        } else {
            None
        },
        response_time,
        vulnerabilities: Seq::empty(),
    }
}

/// The record that a port probe of the fast mode yields.
pub open spec fn fast_port_result(
    target: IpAddress,
    port: u16,
    outcome: ConnectOutcome,
    response_time: u64,
) -> ScanResultView {
    let is_open = outcome == ConnectOutcome::Connected;
    ScanResultView {
        target,
        port,
        is_open,
        service: if is_open {
            service_name_fast(port)
        } else {
            None
        },
        banner: None,
        response_time,
        vulnerabilities: Seq::empty(),
    }
}

/// Records the probe of one port: `outcome` is how the connection attempt
/// ended, `response_time` the milliseconds it took, `banner` what the banner
/// grabber obtained, if it was run and succeeded.
pub fn scan_port(
    target: IpAddress,
    port: u16,
    outcome: ConnectOutcome,
    response_time: u64,
    grab_banners: bool,
    banner: Option<String>,
) -> (r: ScanResult)
    ensures
        r.deep_view() == port_result(
            target,
            port,
            outcome,
            response_time,
            grab_banners,
            banner.deep_view(),
        ),
        r.deep_view().pure(),
{
    let is_open = outcome == ConnectOutcome::Connected;
    let vulnerabilities: Vec<Vulnerability> = Vec::new();
    assert(vulnerabilities.deep_view() =~= Seq::<VulnerabilityView>::empty());
    ScanResult {
        target,
        port,
        is_open,
        service: if is_open {
            get_service_name(port)
        } else {
            None
        },
        banner: if is_open && grab_banners {
            banner
        } else {
            None
        },
        response_time,
        vulnerabilities,
    }
}

/// Records the probe of one port in the fast mode, which grabs no banner.
pub fn scan_port_ultra_fast(
    target: IpAddress,
    port: u16,
    outcome: ConnectOutcome,
    response_time: u64,
) -> (r: ScanResult)
    ensures
        r.deep_view() == fast_port_result(target, port, outcome, response_time),
        r.deep_view().pure(),
{
    let is_open = outcome == ConnectOutcome::Connected;
    let vulnerabilities: Vec<Vulnerability> = Vec::new();
    assert(vulnerabilities.deep_view() =~= Seq::<VulnerabilityView>::empty());
    ScanResult {
        target,
        port,
        is_open,
        service: if is_open {
            get_service_name_fast(port)
        } else {
            None
        },
        banner: None,
        response_time,
        vulnerabilities,
    }
}

/// `s` cut into pieces of `size` items; the last piece holds what is left.
pub open spec fn chunks(s: Seq<u16>, size: int) -> Seq<Seq<u16>>
    decreases s.len(),
{
    if s.len() == 0 || size <= 0 {
        Seq::empty()
    } else if s.len() <= size {
        seq![s]
    } else {
        seq![s.take(size)] + chunks(s.skip(size), size)
    }
}

/// The pieces of a cut are never empty nor longer than `size`, and joined in
/// order they give back the sequence.
pub proof fn lemma_chunks(s: Seq<u16>, size: int)
    requires
        size > 0,
    ensures
        forall|i: int|
            0 <= i < chunks(s, size).len() ==> 0 < (#[trigger] chunks(s, size)[i]).len() <= size,
        chunks(s, size).flatten() == s,
    decreases s.len(),
{
    let c = chunks(s, size);
    if s.len() == 0 {
        assert(c.flatten() =~= s);
    } else if s.len() <= size {
        assert(c.flatten() =~= s) by {
            seq![s].lemma_flatten_one_element();
        }
    } else {
        lemma_chunks(s.skip(size), size);
        let rest = chunks(s.skip(size), size);
        assert forall|i: int| 0 <= i < c.len() implies 0 < (#[trigger] c[i]).len() <= size by {
            if i > 0 {
                assert(c[i] == rest[i - 1]);
            }
        }
        assert(c.flatten() == s) by {
            vstd::seq_lib::lemma_flatten_concat(seq![s.take(size)], rest);
            seq![s.take(size)].lemma_flatten_one_element();
            assert(s.take(size) + s.skip(size) =~= s);
        }
    }
}

/// How a port is probed.
#[derive(Debug, Clone, Copy, PartialEq, Eq, Structural, Hash)]
pub enum TaskKind {
    /// Connect, then grab the banner of an open port if asked to, and report
    /// both.
    Standard { grab_banners: bool },
    /// Connect only, and report how that ended.
    Fast,
}

/// The work of one host scan: the batches are run one after another, the
/// ports of a batch as concurrent tasks, of which at most `concurrency` hold a
/// connection at a time; every connection attempt ends after `timeout_ms`.
/// The batches joined are the ports of the scan; the reports of the tasks are
/// handed back in that order.
#[derive(Debug)]
pub struct ScanPlan {
    pub target: IpAddress,
    pub batches: Vec<Vec<u16>>,
    pub concurrency: usize,
    pub timeout_ms: u64,
    pub task: TaskKind,
}

/// The views of a sequence of port lists.
pub open spec fn port_lists(v: Seq<Vec<u16>>) -> Seq<Seq<u16>> {
    v.map_values(|b: Vec<u16>| b@)
}

/// The batches of a scan: all ports at once, or pieces of `FAST_BATCH_SIZE`
/// ports in the fast mode.
pub open spec fn batches_of(ports: Seq<u16>, fast_mode: bool) -> Seq<Seq<u16>> {
    if fast_mode {
        chunks(ports, FAST_BATCH_SIZE as int)
    } else {
        seq![ports]
    }
}

/// A copy of `ports[from..to]`.
fn port_slice(ports: &Vec<u16>, from: usize, to: usize) -> (r: Vec<u16>)
    requires
        from <= to <= ports.len(),
    ensures
        r@ == ports@.subrange(from as int, to as int),
{
    let mut out: Vec<u16> = Vec::new();
    let mut i: usize = from;
    while i < to
        invariant
            from <= i <= to <= ports.len(),
            out@ == ports@.subrange(from as int, i as int),
        decreases to - i,
    {
        out.push(ports[i]);
        assert(out@ =~= ports@.subrange(from as int, i + 1));
        i += 1;
    }
    out
}

/// Cuts `ports` into batches of `FAST_BATCH_SIZE`.
#[verifier::rlimit(50)]
pub fn fast_batches(ports: &Vec<u16>) -> (r: Vec<Vec<u16>>)
    ensures
        port_lists(r@) == chunks(ports@, FAST_BATCH_SIZE as int),
{
    let mut out: Vec<Vec<u16>> = Vec::new();
    let mut from: usize = 0;
    let ghost all = chunks(ports@, FAST_BATCH_SIZE as int);
    assert(ports@.skip(0) =~= ports@);
    assert(port_lists(out@) + chunks(ports@.skip(0), FAST_BATCH_SIZE as int) =~= all);
    while from < ports.len()
        invariant
            from <= ports.len(),
            all == chunks(ports@, FAST_BATCH_SIZE as int),
            port_lists(out@) + chunks(ports@.skip(from as int), FAST_BATCH_SIZE as int) == all,
        decreases ports.len() - from,
    {
        let ghost before = out@;
        let ghost rest = ports@.skip(from as int);
        let to: usize = if ports.len() - from <= FAST_BATCH_SIZE {
            ports.len()
        } else {
            from + FAST_BATCH_SIZE
        };
        let batch = port_slice(ports, from, to);
        out.push(batch);
        proof {
            assert(port_lists(out@) =~= port_lists(before).push(batch@));
            if ports.len() - from <= FAST_BATCH_SIZE {
                assert(batch@ =~= rest);
                assert(ports@.skip(to as int) =~= Seq::<u16>::empty());
                assert(chunks(rest, FAST_BATCH_SIZE as int) =~= seq![rest]);
                assert(port_lists(before).push(batch@) + Seq::<Seq<u16>>::empty()
                    =~= port_lists(before) + seq![rest]);
            } else {
                assert(batch@ =~= rest.take(FAST_BATCH_SIZE as int));
                assert(rest.skip(FAST_BATCH_SIZE as int) =~= ports@.skip(to as int));
                assert(port_lists(before).push(batch@) + chunks(
                    ports@.skip(to as int),
                    FAST_BATCH_SIZE as int,
                ) =~= port_lists(before) + (seq![batch@] + chunks(
                    ports@.skip(to as int),
                    FAST_BATCH_SIZE as int,
                )));
            }
        }
        from = to;
    }
    assert(ports@.skip(ports.len() as int) =~= Seq::<u16>::empty());
    assert(port_lists(out@) + Seq::<Seq<u16>>::empty() =~= port_lists(out@));
    out
}

/// What the task of one port reports: how the connection attempt ended, the
/// milliseconds it took, and the banner that was grabbed, if any.
#[derive(Debug)]
pub struct PortOutcome {
    pub outcome: ConnectOutcome,
    pub response_time: u64,
    pub banner: Option<String>,
}

/// The patterns of a checker, if there is one.
pub open spec fn patterns_of(vuln_checker: Option<&VulnChecker>) -> Option<Seq<ServicePatternView>> {
    match vuln_checker {
        Some(c) => Some(c.patterns()),
        None => None,
    }
}

/// The record of the port at `index` of the configuration, made of what its
/// task reports: in the fast mode the bare record; else the record with the
/// banner, checked against the patterns if there are any.
pub open spec fn task_record(
    config: ScanConfig,
    patterns: Option<Seq<ServicePatternView>>,
    index: int,
    report: PortOutcome,
) -> ScanResultView {
    let port = config.ports@[index];
    if config.fast_mode {
        fast_port_result(config.target, port, report.outcome, report.response_time)
    } else {
        let record = port_result(
            config.target,
            port,
            report.outcome,
            report.response_time,
            config.grab_banners,
            report.banner.deep_view(),
        );
        match patterns {
            Some(p) => record.checked(p),
            None => record,
        }
    }
}

/// What a scan amounts to before it is ordered: the record of every port
/// whose task reported, in the order of the ports. The report at a position
/// belongs to the port at that position; a failed task has none, and a
/// report without a port is left out.
pub open spec fn gathered_results(
    config: ScanConfig,
    patterns: Option<Seq<ServicePatternView>>,
    outcomes: Seq<Option<PortOutcome>>,
) -> Seq<ScanResultView>
    decreases outcomes.len(),
{
    if outcomes.len() == 0 {
        Seq::empty()
    } else {
        let n = outcomes.len() - 1;
        let before = gathered_results(config, patterns, outcomes.drop_last());
        match outcomes.last() {
            Some(report) if n < config.ports@.len() => before.push(
                task_record(config, patterns, n, report),
            ),
            _ => before,
        }
    }
}

/// The views of the records with a key are the records of the views with
/// that port.
pub proof fn lemma_select_views(s: Seq<ScanResult>, port: int)
    ensures
        select(s.map_values(|r: ScanResult| r.deep_view()), port) == select(s, port).map_values(
            |r: ScanResult| r.deep_view(),
        ),
    decreases s.len(),
{
    let f = |r: ScanResult| r.deep_view();
    if s.len() == 0 {
        assert(select(s.map_values(f), port) =~= select(s, port).map_values(f));
    } else {
        lemma_select_views(s.drop_last(), port);
        assert(s.map_values(f).drop_last() =~= s.drop_last().map_values(f));
        assert(s.map_values(f).last() == s.last().deep_view());
        if s.last().port == port {
            assert(select(s.drop_last(), port).push(s.last()).map_values(f) =~= select(
                s.drop_last(),
                port,
            ).map_values(f).push(s.last().deep_view()));
        }
    }
}

/// A sort by key of records is a sort by port of their views.
pub proof fn lemma_sort_views(out: Vec<ScanResult>, input: Vec<ScanResult>)
    requires
        is_stable_sort_of(out@, input@),
    ensures
        is_stable_sort_of(out.deep_view(), input.deep_view()),
{
    let f = |r: ScanResult| r.deep_view();
    assert(out.deep_view() =~= out@.map_values(f));
    assert(input.deep_view() =~= input@.map_values(f));
    assert forall|port: int| #[trigger]
        select(out.deep_view(), port) == select(input.deep_view(), port) by {
        lemma_select_views(out@, port);
        lemma_select_views(input@, port);
        assert(select(out@, port) == select(input@, port));
    }
    assert forall|i: int, j: int| 0 <= i <= j < out.deep_view().len() implies out.deep_view()[i].port
        <= out.deep_view()[j].port by {
        assert(out@[i].key() <= out@[j].key());
    }
}

/// Checking against patterns keeps a record pure, and leaves a closed port's
/// record as it is.
pub proof fn lemma_checked_keeps_purity(r: ScanResultView, patterns: Seq<ServicePatternView>)
    requires
        r.pure(),
    ensures
        r.checked(patterns).pure(),
        !r.is_open ==> r.checked(patterns) == r,
{
}

/// Whether a record is what a scan makes of its configuration: it is pure, of
/// the scan's target and of one of its ports, its vulnerabilities ascend in
/// severity rank, and in the fast mode it has neither banner nor
/// vulnerabilities.
pub open spec fn fits_scan(config: ScanConfig, record: ScanResultView) -> bool {
    &&& record.pure()
    &&& record.target == config.target
    &&& config.ports@.contains(record.port)
    &&& crate::vuln::severity_ordered(record.vulnerabilities)
    &&& config.fast_mode ==> record.banner.is_none() && record.vulnerabilities.len() == 0
}

/// The record of a port is of that port and fits the scan.
pub proof fn lemma_task_record(
    config: ScanConfig,
    patterns: Option<Seq<ServicePatternView>>,
    index: int,
    report: PortOutcome,
)
    requires
        0 <= index < config.ports@.len(),
    ensures
        task_record(config, patterns, index, report).port == config.ports@[index],
        fits_scan(config, task_record(config, patterns, index, report)),
{
    let record = port_result(
        config.target,
        config.ports@[index],
        report.outcome,
        report.response_time,
        config.grab_banners,
        report.banner.deep_view(),
    );
    if !config.fast_mode && patterns.is_some() && record.is_open && record.banner.is_some() {
        crate::vuln::lemma_correlation_ordered(patterns.unwrap(), record.banner.unwrap());
    }
}

/// Every gathered record fits the scan, and there are no more of them than
/// ports or tasks. When every port has a task and no task failed, there is one
/// record for each port, in the order of the ports.
pub proof fn lemma_gathered(
    config: ScanConfig,
    patterns: Option<Seq<ServicePatternView>>,
    outcomes: Seq<Option<PortOutcome>>,
)
    ensures
        gathered_results(config, patterns, outcomes).len() <= outcomes.len(),
        gathered_results(config, patterns, outcomes).len() <= config.ports@.len(),
        forall|k: int|
            0 <= k < gathered_results(config, patterns, outcomes).len() ==> fits_scan(
                config,
                #[trigger] gathered_results(config, patterns, outcomes)[k],
            ),
        outcomes.len() <= config.ports@.len() && (forall|i: int|
            0 <= i < outcomes.len() ==> (#[trigger] outcomes[i]).is_some()) ==> {
            &&& gathered_results(config, patterns, outcomes).len() == outcomes.len()
            &&& forall|i: int|
                0 <= i < outcomes.len() ==> (#[trigger] gathered_results(
                    config,
                    patterns,
                    outcomes,
                )[i]).port == config.ports@[i]
        },
    decreases outcomes.len(),
{
    if outcomes.len() > 0 {
        let rest = outcomes.drop_last();
        let n = outcomes.len() - 1;
        lemma_gathered(config, patterns, rest);
        let g = gathered_results(config, patterns, outcomes);
        let before = gathered_results(config, patterns, rest);
        if outcomes.last().is_some() && n < config.ports@.len() {
            lemma_task_record(config, patterns, n, outcomes.last().unwrap());
        }
        assert forall|k: int| 0 <= k < g.len() implies fits_scan(config, #[trigger] g[k]) by {
            if k < before.len() {
                assert(g[k] == before[k]);
            }
        }
        if outcomes.len() <= config.ports@.len() && (forall|i: int|
            0 <= i < outcomes.len() ==> (#[trigger] outcomes[i]).is_some()) {
            assert forall|i: int| 0 <= i < rest.len() implies (#[trigger] rest[i]).is_some() by {
                assert(rest[i] == outcomes[i]);
            }
            assert(outcomes[n].is_some());
            assert forall|i: int| 0 <= i < outcomes.len() implies (#[trigger] g[i]).port
                == config.ports@[i] by {
                if i < n {
                    assert(g[i] == before[i]);
                }
            }
        }
    }
}

/// Every result of a scan fits the scan: a closed port has no service, no
/// banner and no vulnerabilities; the result is of the scan's target and of
/// one of its ports; its vulnerabilities ascend in severity rank; in the fast
/// mode it has neither banner nor vulnerabilities. There are no more results
/// than ports, and they come in ascending port order.
pub proof fn lemma_results_fit(
    config: ScanConfig,
    patterns: Option<Seq<ServicePatternView>>,
    outcomes: Seq<Option<PortOutcome>>,
    results: Seq<ScanResultView>,
)
    requires
        is_stable_sort_of(results, gathered_results(config, patterns, outcomes)),
    ensures
        forall|j: int| 0 <= j < results.len() ==> fits_scan(config, #[trigger] results[j]),
        results.len() <= config.ports@.len(),
        results.len() <= outcomes.len(),
        sorted(results),
{
    let gathered = gathered_results(config, patterns, outcomes);
    lemma_gathered(config, patterns, outcomes);
    crate::sort::lemma_sort_keeps_items(results, gathered);
    assert forall|j: int| 0 <= j < results.len() implies fits_scan(config, #[trigger] results[j]) by {
        assert(results.contains(results[j]));
        let g = choose|g: int| 0 <= g < gathered.len() && gathered[g] == results[j];
        assert(fits_scan(config, gathered[g]));
    }
}

/// A scan in which every port has a task and no task failed has exactly one
/// result for each port: as many results as ports, and a result of every
/// port.
pub proof fn lemma_complete_scan(
    config: ScanConfig,
    patterns: Option<Seq<ServicePatternView>>,
    outcomes: Seq<Option<PortOutcome>>,
    results: Seq<ScanResultView>,
)
    requires
        outcomes.len() == config.ports@.len(),
        forall|i: int| 0 <= i < outcomes.len() ==> (#[trigger] outcomes[i]).is_some(),
        is_stable_sort_of(results, gathered_results(config, patterns, outcomes)),
    ensures
        results.len() == config.ports@.len(),
        sorted(results),
        forall|i: int|
            0 <= i < config.ports@.len() ==> exists|j: int|
                0 <= j < results.len() && (#[trigger] results[j]).port == #[trigger] config.ports@[i],
        forall|j: int| 0 <= j < results.len() ==> config.ports@.contains((#[trigger] results[j]).port),
{
    let gathered = gathered_results(config, patterns, outcomes);
    lemma_gathered(config, patterns, outcomes);
    lemma_results_fit(config, patterns, outcomes, results);
    crate::sort::lemma_sort_keeps_items(results, gathered);
    assert forall|i: int| 0 <= i < config.ports@.len() implies exists|j: int|
        0 <= j < results.len() && (#[trigger] results[j]).port == #[trigger] config.ports@[i] by {
        assert(gathered[i].port == config.ports@[i]);
        assert(gathered.contains(gathered[i]));
        assert(results.contains(gathered[i]));
        let j = choose|j: int| 0 <= j < results.len() && results[j] == gathered[i];
        assert(results[j].port == config.ports@[i]);
    }
}

/// When no port is listed twice, at most one gathered record has a given
/// port, and that port is one of those with a task.
pub proof fn lemma_gathered_ports_distinct(
    config: ScanConfig,
    patterns: Option<Seq<ServicePatternView>>,
    outcomes: Seq<Option<PortOutcome>>,
    port: int,
)
    requires
        config.ports@.no_duplicates(),
    ensures
        select(gathered_results(config, patterns, outcomes), port).len() <= 1,
        select(gathered_results(config, patterns, outcomes), port).len() > 0 ==> exists|i: int|
            0 <= i < outcomes.len() && i < config.ports@.len() && #[trigger] config.ports@[i]
                == port,
    decreases outcomes.len(),
{
    if outcomes.len() > 0 {
        let rest = outcomes.drop_last();
        let n = outcomes.len() - 1;
        lemma_gathered_ports_distinct(config, patterns, rest, port);
        let before = gathered_results(config, patterns, rest);
        if outcomes.last().is_some() && n < config.ports@.len() {
            let record = task_record(config, patterns, n, outcomes.last().unwrap());
            lemma_task_record(config, patterns, n, outcomes.last().unwrap());
            let g = before.push(record);
            assert(g.drop_last() =~= before);
            assert(g.last() == record);
            if record.port == port {
                assert(config.ports@[n] == port);
                if select(before, port).len() > 0 {
                    let i = choose|i: int|
                        0 <= i < rest.len() && i < config.ports@.len() && #[trigger] config.ports@[i]
                            == port;
                    assert(config.ports@[i] == config.ports@[n]);
                    assert(false);
                }
            } else if select(before, port).len() > 0 {
                let i = choose|i: int|
                    0 <= i < rest.len() && i < config.ports@.len() && #[trigger] config.ports@[i]
                        == port;
                assert(i < outcomes.len());
            }
        } else if select(before, port).len() > 0 {
            let i = choose|i: int|
                0 <= i < rest.len() && i < config.ports@.len() && #[trigger] config.ports@[i]
                    == port;
            assert(i < outcomes.len());
        }
    }
}

/// When no port is listed twice, the results of a scan strictly ascend in
/// port: no port has two results.
pub proof fn lemma_distinct_ports_ascend(
    config: ScanConfig,
    patterns: Option<Seq<ServicePatternView>>,
    outcomes: Seq<Option<PortOutcome>>,
    results: Seq<ScanResultView>,
)
    requires
        config.ports@.no_duplicates(),
        is_stable_sort_of(results, gathered_results(config, patterns, outcomes)),
    ensures
        forall|i: int, j: int|
            0 <= i < j < results.len() ==> (#[trigger] results[i]).port < (
            #[trigger] results[j]).port,
{
    assert forall|i: int, j: int| 0 <= i < j < results.len() implies (#[trigger] results[i]).port
        < (#[trigger] results[j]).port by {
        assert(results[i].key() <= results[j].key());
        if results[i].port == results[j].port {
            let port = results[i].port as int;
            crate::sort::lemma_select_two(results, i, j);
            assert(select(results, port) == select(
                gathered_results(config, patterns, outcomes),
                port,
            ));
            lemma_gathered_ports_distinct(config, patterns, outcomes, port);
        }
    }
}

/// The engine of one host scan.
#[derive(Debug)]
pub struct Scanner {
    config: ScanConfig,
    banner_grabber: BannerGrabber,
}

impl Scanner {
    pub fn new(config: ScanConfig) -> (r: Self)
        ensures
            r.config() == config,
            r.grabber().timeout_ms() == crate::banner::PROBE_TIMEOUT_MS,
    {
        Scanner { config, banner_grabber: BannerGrabber::new() }
    }

    /// The configuration of the scan.
    pub closed spec fn config(&self) -> ScanConfig {
        self.config
    }

    /// The configuration of the scan.
    pub fn get_config(&self) -> (r: &ScanConfig)
        ensures
            *r == self.config(),
    {
        &self.config
    }

    /// The banner grabber of the scan.
    pub closed spec fn grabber(&self) -> BannerGrabber {
        self.banner_grabber
    }

    /// The banner grabber of the scan.
    pub fn banner_grabber(&self) -> (r: BannerGrabber)
        ensures
            r == self.grabber(),
    {
        self.banner_grabber
    }

    /// The work of the scan: one task for each port, in the order of the
    /// ports.
    pub fn plan(&self) -> (r: ScanPlan)
        ensures
            r.target == self.config().target,
            port_lists(r.batches@) == batches_of(self.config().ports@, self.config().fast_mode),
            port_lists(r.batches@).flatten() == self.config().ports@,
            r.concurrency == self.config().concurrency,
            r.timeout_ms == self.config().timeout_ms,
            r.task == if self.config().fast_mode {
                TaskKind::Fast
            } else {
                TaskKind::Standard { grab_banners: self.config().grab_banners }
            },
    {
        let batches = if self.config.fast_mode {
            proof {
                lemma_chunks(self.config.ports@, FAST_BATCH_SIZE as int);
            }
            fast_batches(&self.config.ports)
        } else {
            let mut one: Vec<Vec<u16>> = Vec::new();
            let all = port_slice(&self.config.ports, 0, self.config.ports.len());
            assert(all@ =~= self.config.ports@);
            one.push(all);
            assert(port_lists(one@) =~= seq![self.config.ports@]);
            proof {
                seq![self.config.ports@].lemma_flatten_one_element();
            }
            one
        };
        ScanPlan {
            target: self.config.target,
            batches,
            concurrency: self.config.concurrency,
            timeout_ms: self.config.timeout_ms,
            task: if self.config.fast_mode {
                TaskKind::Fast
            } else {
                TaskKind::Standard { grab_banners: self.config.grab_banners }
            },
        }
    }

    /// The results of the scan without vulnerability checks.
    pub fn scan(&self, outcomes: Vec<Option<PortOutcome>>) -> (r: Vec<ScanResult>)
        ensures
            is_stable_sort_of(r.deep_view(), gathered_results(self.config(), None, outcomes@)),
            forall|j: int| 0 <= j < r.len() ==> fits_scan(self.config(), #[trigger] r.deep_view()[j]),
            r.len() <= self.config().ports@.len(),
            outcomes.len() == self.config().ports@.len() && (forall|i: int|
                0 <= i < outcomes.len() ==> (#[trigger] outcomes@[i]).is_some()) ==> r.len()
                == self.config().ports@.len(),
    {
        self.scan_with_vuln_checker(outcomes, None)
    }

    /// The results of the scan. `outcomes` holds what the tasks of the plan
    /// reported, in the order of the ports, `None` for a task that failed.
    /// Every report becomes the record of its port, as `scan_port` makes it,
    /// or `scan_port_ultra_fast` in the fast mode. Outside the fast mode each
    /// record of an open port with a banner gets the vulnerabilities that the
    /// checker correlates with the banner. The records are ordered by port,
    /// those of one port in task order.
    #[verifier::rlimit(50)]
    pub fn scan_with_vuln_checker(
        &self,
        outcomes: Vec<Option<PortOutcome>>,
        vuln_checker: Option<&VulnChecker>,
    ) -> (r: Vec<ScanResult>)
        ensures
            is_stable_sort_of(
                r.deep_view(),
                gathered_results(self.config(), patterns_of(vuln_checker), outcomes@),
            ),
            forall|j: int| 0 <= j < r.len() ==> fits_scan(self.config(), #[trigger] r.deep_view()[j]),
            r.len() <= self.config().ports@.len(),
            outcomes.len() == self.config().ports@.len() && (forall|i: int|
                0 <= i < outcomes.len() ==> (#[trigger] outcomes@[i]).is_some()) ==> r.len()
                == self.config().ports@.len(),
    {
        let ghost input = outcomes@;
        let ghost patterns = patterns_of(vuln_checker);
        let ghost wanted = gathered_results(self.config, patterns, input);
        let mut outcomes = outcomes;
        // The records from the last task to the first.
        let mut reversed: Vec<ScanResult> = Vec::new();
        let ghost mut tail: Seq<Option<PortOutcome>> = Seq::empty();
        let ghost mut tail_views: Seq<ScanResultView> = Seq::empty();
        proof {
            assert(outcomes@ + tail =~= input);
            assert(gathered_results(self.config, patterns, outcomes@) + tail_views =~= wanted);
        }
        while outcomes.len() > 0
            invariant
                outcomes@ + tail == input,
                reversed.len() == tail_views.len(),
                forall|t: int|
                    0 <= t < reversed.len() ==> (#[trigger] reversed@[t]).deep_view()
                        == tail_views[tail_views.len() - 1 - t],
                patterns == patterns_of(vuln_checker),
                gathered_results(self.config(), patterns, outcomes@) + tail_views == wanted,
            decreases outcomes.len(),
        {
            let ghost before = outcomes@;
            let ghost old_tail = tail;
            let ghost old_views = tail_views;
            let ghost old_reversed = reversed@;
            let last = outcomes.pop().unwrap();
            let index = outcomes.len();
            proof {
                tail = seq![last] + old_tail;
                assert(outcomes@ + tail =~= before + old_tail);
                assert(before.drop_last() =~= outcomes@);
                assert(before.last() == last);
            }
            let made = match last {
                Some(report) => {
                    if index < self.config.ports.len() {
                        let ghost wanted_record = task_record(
                            self.config,
                            patterns,
                            index as int,
                            report,
                        );
                        let port = self.config.ports[index];
                        if self.config.fast_mode {
                            Some(
                                scan_port_ultra_fast(
                                    self.config.target,
                                    port,
                                    report.outcome,
                                    report.response_time,
                                ),
                            )
                        } else {
                            let mut record = scan_port(
                                self.config.target,
                                port,
                                report.outcome,
                                report.response_time,
                                self.config.grab_banners,
                                report.banner,
                            );
                            let ghost raw = record.deep_view();
                            if let Some(checker) = vuln_checker {
                                if record.is_open {
                                    let found = match &record.banner {
                                        Some(banner) => Some(checker.check_banner(banner.as_str())),
                                        None => None,
                                    };
                                    if let Some(list) = found {
                                        record.vulnerabilities = list;
                                    }
                                }
                                assert(record.deep_view() == raw.checked(checker.patterns()));
                            }
                            assert(record.deep_view() == wanted_record);
                            Some(record)
                        }
                    } else {
                        None
                    }
                },
                None => None,
            };
            match made {
                Some(record) => {
                    let ghost view = record.deep_view();
                    reversed.push(record);
                    proof {
                        tail_views = seq![view] + old_views;
                        assert(gathered_results(self.config, patterns, before)
                            == gathered_results(self.config, patterns, outcomes@).push(view));
                        assert(gathered_results(self.config, patterns, outcomes@) + tail_views
                            =~= gathered_results(self.config, patterns, before) + old_views);
                        assert forall|t: int| 0 <= t < reversed.len() implies (
                        #[trigger] reversed@[t]).deep_view() == tail_views[tail_views.len() - 1
                            - t] by {
                            if t < old_reversed.len() {
                                assert(reversed@[t] == old_reversed[t]);
                            }
                        }
                    }
                },
                None => {
                    proof {
                        assert(gathered_results(self.config, patterns, before)
                            == gathered_results(self.config, patterns, outcomes@));
                    }
                },
            }
        }
        proof {
            assert(gathered_results(self.config, patterns, outcomes@)
                =~= Seq::<ScanResultView>::empty());
            assert(Seq::<ScanResultView>::empty() + tail_views =~= tail_views);
        }
        let mut gathered: Vec<ScanResult> = Vec::new();
        assert(gathered.deep_view() =~= wanted.take(0));
        while reversed.len() > 0
            invariant
                reversed.len() + gathered.len() == wanted.len(),
                forall|t: int|
                    0 <= t < reversed.len() ==> (#[trigger] reversed@[t]).deep_view() == wanted[wanted.len()
                        - 1 - t],
                gathered.deep_view() == wanted.take(gathered.len() as int),
            decreases reversed.len(),
        {
            let ghost before = gathered.deep_view();
            let record = reversed.pop().unwrap();
            gathered.push(record);
            assert(gathered.deep_view() =~= before.push(record.deep_view()));
            assert(gathered.deep_view() =~= wanted.take(gathered.len() as int));
        }
        assert(wanted.take(wanted.len() as int) =~= wanted);
        let ghost unsorted = gathered;
        let out = stable_sort(gathered);
        proof {
            lemma_sort_views(out, unsorted);
            lemma_results_fit(self.config, patterns, input, out.deep_view());
            lemma_gathered(self.config, patterns, input);
        }
        out
    }
}

/// What to do next in order to tell whether a host is alive.
#[derive(Debug)]
pub enum PingStep {
    /// Attempt to connect to these ports at the same time, each within
    /// `timeout_ms`, and add the outcomes to those gathered, in this order.
    ProbeTogether { ports: Vec<u16>, timeout_ms: u64 },
    /// Attempt to connect to this port within `timeout_ms`, and add the
    /// outcome to those gathered.
    ProbeNext { port: u16, timeout_ms: u64 },
    /// The host is alive, or it is not.
    Done(bool),
}

/// A `PingStep` with its ports as a sequence.
pub enum PingStepView {
    ProbeTogether { ports: Seq<u16>, timeout_ms: u64 },
    ProbeNext { port: u16, timeout_ms: u64 },
    Done(bool),
}

impl View for PingStep {
    type V = PingStepView;

    open spec fn view(&self) -> PingStepView {
        match *self {
            PingStep::ProbeTogether { ports, timeout_ms } => PingStepView::ProbeTogether {
                ports: ports@,
                timeout_ms,
            },
            PingStep::ProbeNext { port, timeout_ms } => PingStepView::ProbeNext {
                port,
                timeout_ms,
            },
            PingStep::Done(alive) => PingStepView::Done(alive),
        }
    }
}

/// Whether one of the outcomes shows that the host is alive.
pub open spec fn any_life(outcomes: Seq<ConnectOutcome>) -> bool {
    exists|i: int| 0 <= i < outcomes.len() && (#[trigger] outcomes[i]).shows_life()
}

/// The next step of the reachability test after the given outcomes: the host
/// is alive as soon as one outcome shows life; until then the primary ports
/// are probed together, each within half the timeout, then the secondary
/// ports one by one, each within a quarter of it; when all have timed out the
/// host counts as dead.
pub open spec fn ping_step(timeout_ms: u64, outcomes: Seq<ConnectOutcome>) -> PingStepView {
    if any_life(outcomes) {
        PingStepView::Done(true)
    } else if outcomes.len() < PRIMARY_PING_PORTS@.len() {
        PingStepView::ProbeTogether {
            ports: PRIMARY_PING_PORTS@.skip(outcomes.len() as int),
            timeout_ms: timeout_ms / 2,
        }
    } else if outcomes.len() < PRIMARY_PING_PORTS@.len() + SECONDARY_PING_PORTS@.len() {
        PingStepView::ProbeNext {
            port: SECONDARY_PING_PORTS@[outcomes.len() - PRIMARY_PING_PORTS@.len()],
            timeout_ms: timeout_ms / 4,
        }
    } else {
        PingStepView::Done(false)
    }
}

/// Decides how the reachability test of a host goes on. The caller starts
/// without outcomes and calls again with the outcomes gathered so far until
/// the step is `Done`.
pub fn ping_host(timeout_ms: u64, outcomes: &Vec<ConnectOutcome>) -> (r: PingStep)
    ensures
        r@ == ping_step(timeout_ms, outcomes@),
{
    let mut i: usize = 0;
    while i < outcomes.len()
        invariant
            i <= outcomes.len(),
            forall|k: int| 0 <= k < i ==> !(#[trigger] outcomes@[k]).shows_life(),
        decreases outcomes.len() - i,
    {
        if outcomes[i] == ConnectOutcome::Connected || outcomes[i] == ConnectOutcome::Refused {
            return PingStep::Done(true);
        }
        i += 1;
    }
    let done = outcomes.len();
    if done < 5 {
        let mut ports: Vec<u16> = Vec::new();
        let mut k: usize = done;
        assert(ports@ =~= PRIMARY_PING_PORTS@.subrange(done as int, k as int));
        while k < 5
            invariant
                done <= k <= 5,
                ports@ == PRIMARY_PING_PORTS@.subrange(done as int, k as int),
            decreases 5 - k,
        {
            ports.push(PRIMARY_PING_PORTS[k]);
            assert(ports@ =~= PRIMARY_PING_PORTS@.subrange(done as int, k + 1));
            k += 1;
        }
        assert(PRIMARY_PING_PORTS@.subrange(done as int, 5) =~= PRIMARY_PING_PORTS@.skip(
            done as int,
        ));
        PingStep::ProbeTogether { ports, timeout_ms: timeout_ms / 2 }
    } else if done < 11 {
        PingStep::ProbeNext { port: SECONDARY_PING_PORTS[done - 5], timeout_ms: timeout_ms / 4 }
    } else {
        PingStep::Done(false)
    }
}

/// The targets whose mark in `alive` holds, in their order; a target without
/// a mark counts as dead.
pub open spec fn alive_targets(targets: Seq<IpAddress>, alive: Seq<bool>) -> Seq<IpAddress>
    decreases targets.len(),
{
    if targets.len() == 0 {
        Seq::empty()
    } else {
        let n = targets.len() - 1;
        if n < alive.len() && alive[n] {
            alive_targets(targets.drop_last(), alive).push(targets.last())
        } else {
            alive_targets(targets.drop_last(), alive)
        }
    }
}

/// The outcome of a ping sweep: the targets whose reachability test found
/// them alive, in the order of the targets.
pub fn ping_sweep(targets: &Vec<IpAddress>, alive: &Vec<bool>) -> (r: Vec<IpAddress>)
    ensures
        r@ == alive_targets(targets@, alive@),
{
    let mut out: Vec<IpAddress> = Vec::new();
    let mut i: usize = 0;
    assert(targets@.take(0) =~= Seq::<IpAddress>::empty());
    while i < targets.len()
        invariant
            i <= targets.len(),
            out@ == alive_targets(targets@.take(i as int), alive@),
        decreases targets.len() - i,
    {
        assert(targets@.take(i + 1).drop_last() =~= targets@.take(i as int));
        assert(targets@.take(i + 1).last() == targets@[i as int]);
        if i < alive.len() && alive[i] {
            out.push(targets[i]);
        }
        i += 1;
    }
    assert(targets@.take(targets.len() as int) =~= targets@);
    out
}

} // verus!
