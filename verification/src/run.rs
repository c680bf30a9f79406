//! The decisions of a whole run: the options and their fast-mode form, the
//! choice of ports, whether to sweep, and the configuration of each host scan.

use crate::ports::{parse_port_specification, port_list, PortSpecError};
use crate::port_tables::ascending;
use crate::presets::{get_top_ports, PortPreset};
use crate::scanner::ScanConfig;
use crate::targets::IpAddress;
use vstd::prelude::*;

verus! {

pub const DEFAULT_CONCURRENCY: usize = 100;

pub const DEFAULT_MAX_HOSTS: usize = 1;

pub const DEFAULT_TIMEOUT_MS: u64 = 3000;

pub const DEFAULT_PING_TIMEOUT_MS: u64 = 800;

/// The connection timeout of the fast mode, in milliseconds.
pub const FAST_TIMEOUT_MS: u64 = 95;

/// The fast mode's concurrency for each logical core.
pub const FAST_CONCURRENCY_PER_CORE: usize = 150;

/// The options of a run that the engine reads.
#[derive(Debug, Clone, Copy, PartialEq, Eq, Structural)]
pub struct RunOptions {
    pub concurrency: usize,
    pub max_hosts: usize,
    pub ping_sweep: bool,
    pub timeout: u64,
    pub ping_timeout: u64,
    pub banners: bool,
    pub vuln_check: bool,
    pub verbose: bool,
    pub quiet: bool,
    pub fast_mode: bool,
}

impl RunOptions {
    /// The options of a run for which nothing was chosen.
    pub open spec fn standard() -> RunOptions {
        RunOptions {
            concurrency: DEFAULT_CONCURRENCY,
            max_hosts: DEFAULT_MAX_HOSTS,
            ping_sweep: false,
            timeout: DEFAULT_TIMEOUT_MS,
            ping_timeout: DEFAULT_PING_TIMEOUT_MS,
            banners: false,
            vuln_check: false,
            verbose: false,
            quiet: false,
            fast_mode: false,
        }
    }

    /// The options as the fast mode runs with them on a machine with the
    /// given number of logical cores: a concurrency of 150 for each core, the
    /// short timeout, no banners, no vulnerability checks, and quiet.
    pub open spec fn fast(self, logical_cores: usize) -> RunOptions {
        RunOptions {
            concurrency: if logical_cores * FAST_CONCURRENCY_PER_CORE <= usize::MAX {
                (logical_cores * FAST_CONCURRENCY_PER_CORE) as usize
            } else {
                usize::MAX
            },
            timeout: FAST_TIMEOUT_MS,
            banners: false,
            vuln_check: false,
            verbose: false,
            quiet: true,
            ..self
        }
    }
}

impl Default for RunOptions {
    fn default() -> (r: Self)
        ensures
            r == RunOptions::standard(),
    {
        RunOptions {
            concurrency: DEFAULT_CONCURRENCY,
            max_hosts: DEFAULT_MAX_HOSTS,
            ping_sweep: false,
            timeout: DEFAULT_TIMEOUT_MS,
            ping_timeout: DEFAULT_PING_TIMEOUT_MS,
            banners: false,
            vuln_check: false,
            verbose: false,
            quiet: false,
            fast_mode: false,
        }
    }
}

/// The options with which the run goes on: those given, or their fast form
/// if the fast mode is chosen.
pub fn apply_fast_mode(options: RunOptions, logical_cores: usize) -> (r: RunOptions)
    ensures
        r == if options.fast_mode {
            options.fast(logical_cores)
        } else {
            options
        },
{
    if !options.fast_mode {
        return options;
    }
    let concurrency = match logical_cores.checked_mul(FAST_CONCURRENCY_PER_CORE) {
        Some(c) => c,
        None => usize::MAX,
    };
    RunOptions {
        concurrency,
        max_hosts: options.max_hosts,
        ping_sweep: options.ping_sweep,
        timeout: FAST_TIMEOUT_MS,
        ping_timeout: options.ping_timeout,
        banners: false,
        vuln_check: false,
        verbose: false,
        quiet: true,
        fast_mode: true,
    }
}

/// Whether the targets are swept before they are scanned: if a sweep is
/// asked for, but not in the fast mode for a single target.
pub fn wants_ping_sweep(options: &RunOptions, target_count: usize) -> (r: bool)
    ensures
        r == (options.ping_sweep && !(options.fast_mode && target_count == 1)),
{
    options.ping_sweep && !(options.fast_mode && target_count == 1)
}

/// The ports of a run, and whether they are the default for want of a choice.
#[derive(Debug)]
pub struct PortChoice {
    pub ports: Vec<u16>,
    pub defaulted: bool,
}

/// Which ports a run scans, before they are listed.
pub enum PortSource {
    Preset(PortPreset),
    Specification(Seq<char>),
    Default,
}

/// Where the ports of a run come from: the top-100 preset if chosen, else the
/// top-1000 preset if chosen, else the specification if there is one, else the
/// top-100 preset as the default.
pub open spec fn port_source(top100: bool, top1000: bool, ports: Option<Seq<char>>) -> PortSource {
    if top100 {
        PortSource::Preset(PortPreset::Top100)
    } else if top1000 {
        PortSource::Preset(PortPreset::Top1000)
    } else {
        match ports {
            Some(spec) => PortSource::Specification(spec),
            None => PortSource::Default,
        }
    }
}

/// Whether `ports` lists the preset: each of its ports once, ascending.
pub open spec fn lists_preset(ports: Seq<u16>, preset: PortPreset) -> bool {
    &&& ascending(ports)
    &&& ports.len() == preset.size()
    &&& forall|p: u16| #[trigger] ports.contains(p) <==> preset.contains(p as int)
}

/// Chooses the ports of a run.
pub fn select_ports(top100: bool, top1000: bool, ports: Option<&str>) -> (r: Result<
    PortChoice,
    PortSpecError,
>)
    ensures
        match port_source(
            top100,
            top1000,
            match ports {
                Some(s) => Some(s@),
                None => None,
            },
        ) {
            PortSource::Preset(preset) => r matches Ok(choice) && !choice.defaulted
                && lists_preset(choice.ports@, preset),
            PortSource::Default => r matches Ok(choice) && choice.defaulted && lists_preset(
                choice.ports@,
                PortPreset::Top100,
            ),
            PortSource::Specification(spec) => match r {
                Ok(choice) => !choice.defaulted && port_list(spec) == Ok::<
                    Seq<u16>,
                    PortSpecError,
                >(choice.ports@),
                Err(e) => port_list(spec) == Err::<Seq<u16>, PortSpecError>(e),
            },
        },
{
    if top100 {
        Ok(PortChoice { ports: get_top_ports(PortPreset::Top100), defaulted: false })
    } else if top1000 {
        Ok(PortChoice { ports: get_top_ports(PortPreset::Top1000), defaulted: false })
    } else {
        match ports {
            Some(spec) => match parse_port_specification(spec) {
                Ok(list) => Ok(PortChoice { ports: list, defaulted: false }),
                Err(e) => Err(e),
            },
            None => Ok(PortChoice { ports: get_top_ports(PortPreset::Top100), defaulted: true }),
        }
    }
}

/// The configuration of the scan of one host.
pub fn host_config(options: &RunOptions, target: IpAddress, ports: &Vec<u16>) -> (r: ScanConfig)
    ensures
        r.target == target,
        r.ports@ == ports@,
        r.concurrency == options.concurrency,
        r.timeout_ms == options.timeout,
        r.grab_banners == options.banners,
        r.quiet == options.quiet,
        r.fast_mode == options.fast_mode,
{
    ScanConfig {
        target,
        ports: ports.clone(),
        concurrency: options.concurrency,
        timeout_ms: options.timeout,
        grab_banners: options.banners,
        quiet: options.quiet,
        fast_mode: options.fast_mode,
    }
}

} // verus!
