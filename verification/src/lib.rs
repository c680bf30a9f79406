//! A TCP port scanner core: target and port-set resolution, reachability
//! decisions, protocol-aware banner recognition, vulnerability correlation,
//! result aggregation and report writing, with every rule stated as a contract.
//!
//! The library performs no input or output. Whoever uses it owns the sockets,
//! the name service, the clock and the files: it performs what the library's
//! plans and steps ask for, and hands the outcomes back.
//!
//! - [`targets`] and [`address`]: addresses, networks, target specifications
//! - [`ports`], [`presets`] and [`port_tables`]: port specifications and presets
//! - [`banner`]: probes and what they read from a reply
//! - [`vuln`] and [`sample`]: vulnerability records and the correlator
//! - [`scanner`]: port records, the scan engine, the reachability test
//! - [`run`], [`report`] and [`export`]: run options, summaries, reports
//! - [`web`]: the dashboard's records and rules
//! - [`text`] and [`sort`]: character sequences; a stable sort

pub mod address;
pub mod banner;
pub mod export;
pub mod html_template;
pub mod port_tables;
pub mod ports;
pub mod presets;
pub mod report;
pub mod run;
pub mod sample;
pub mod scanner;
pub mod sort;
pub mod targets;
pub mod text;
pub mod vuln;
pub mod web;
