//! The summary of a run: how many ports were scanned and how many are open.

use crate::scanner::{ScanResult, ScanResultView};
use crate::text::{append, append_str, decimal, decimal_chars, from_chars, to_chars};
use vstd::prelude::*;

verus! {

/// The figures of a report. `total_targets` is set for a scan of several hosts.
#[derive(Debug)]
pub struct ScanReport {
    pub target: String,
    pub total_targets: Option<usize>,
    pub total_ports: usize,
    pub open_ports: usize,
    pub closed_ports: usize,
}

/// The number of records of open ports.
pub open spec fn open_count(results: Seq<ScanResultView>) -> nat
    decreases results.len(),
{
    if results.len() == 0 {
        0
    } else if results.last().is_open {
        open_count(results.drop_last()) + 1
    } else {
        open_count(results.drop_last())
    }
}

/// No more ports are open than there are records.
pub proof fn lemma_open_count_bound(results: Seq<ScanResultView>)
    ensures
        open_count(results) <= results.len(),
    decreases results.len(),
{
    if results.len() > 0 {
        lemma_open_count_bound(results.drop_last());
    }
}

/// The record lists of several hosts, joined in host order.
pub open spec fn joined(all: Seq<Vec<ScanResult>>) -> Seq<ScanResultView>
    decreases all.len(),
{
    if all.len() == 0 {
        Seq::empty()
    } else {
        joined(all.drop_last()) + all.last().deep_view()
    }
}

/// The target line of a report on several hosts.
pub open spec fn network_target(target_spec: Seq<char>, total_targets: usize) -> Seq<char> {
    target_spec + " ("@ + decimal(total_targets as nat) + " hosts)"@
}

/// Counts the records of open ports.
pub fn count_open(results: &Vec<ScanResult>) -> (r: usize)
    ensures
        r == open_count(results.deep_view()),
        r <= results.len(),
{
    let mut n: usize = 0;
    let mut i: usize = 0;
    assert(results.deep_view().take(0) =~= Seq::<ScanResultView>::empty());
    while i < results.len()
        invariant
            i <= results.len(),
            n <= i,
            n == open_count(results.deep_view().take(i as int)),
        decreases results.len() - i,
    {
        assert(results.deep_view().take(i + 1).drop_last() =~= results.deep_view().take(i as int));
        assert(results.deep_view().take(i + 1).last() == results@[i as int].deep_view());
        if results[i].is_open {
            n += 1;
        }
        i += 1;
    }
    assert(results.deep_view().take(results.len() as int) =~= results.deep_view());
    n
}

/// The records of open ports, in their order.
pub open spec fn open_records(results: Seq<ScanResultView>) -> Seq<ScanResultView>
    decreases results.len(),
{
    if results.len() == 0 {
        results
    } else if results.last().is_open {
        open_records(results.drop_last()).push(results.last())
    } else {
        open_records(results.drop_last())
    }
}

/// There are as many records of open ports as `open_count` counts.
pub proof fn lemma_open_records_len(results: Seq<ScanResultView>)
    ensures
        open_records(results).len() == open_count(results),
        forall|i: int| 0 <= i < open_records(results).len() ==> (#[trigger] open_records(
            results,
        )[i]).is_open,
    decreases results.len(),
{
    if results.len() > 0 {
        lemma_open_records_len(results.drop_last());
    }
}

/// Copies of the records of open ports, in their order.
pub fn open_results(results: &Vec<ScanResult>) -> (r: Vec<ScanResult>)
    ensures
        r.deep_view() == open_records(results.deep_view()),
{
    let ghost views = results.deep_view();
    let mut out: Vec<ScanResult> = Vec::new();
    let mut i: usize = 0;
    assert(views.take(0) =~= Seq::<ScanResultView>::empty());
    assert(out.deep_view() =~= open_records(views.take(0)));
    while i < results.len()
        invariant
            i <= results.len(),
            views == results.deep_view(),
            out.deep_view() == open_records(views.take(i as int)),
        decreases results.len() - i,
    {
        assert(views.take(i + 1).drop_last() =~= views.take(i as int));
        assert(views.take(i + 1).last() == results@[i as int].deep_view());
        if results[i].is_open {
            let ghost before = out.deep_view();
            let copy = results[i].clone();
            out.push(copy);
            assert(out.deep_view() =~= before.push(copy.deep_view()));
        }
        i += 1;
    }
    assert(views.take(results.len() as int) =~= views);
    out
}

/// Joins the record lists of several hosts in host order.
pub fn merge_results(all: Vec<Vec<ScanResult>>) -> (r: Vec<ScanResult>)
    ensures
        r.deep_view() == joined(all@),
{
    let ghost input = all@;
    let mut all = all;
    let mut out: Vec<ScanResult> = Vec::new();
    // The lists are taken from the last one down, each put before the others.
    assert(out.deep_view() =~= Seq::<ScanResultView>::empty());
    assert(joined(all@) + out.deep_view() =~= joined(input));
    while all.len() > 0
        invariant
            joined(all@) + out.deep_view() == joined(input),
        decreases all.len(),
    {
        let ghost before = all@;
        let ghost rest = out.deep_view();
        let mut list = all.pop().unwrap();
        let ghost added = list.deep_view();
        assert(before.drop_last() =~= all@);
        list.append(&mut out);
        assert(list.deep_view() =~= added + rest);
        out = list;
        assert(joined(all@) + out.deep_view() =~= joined(before) + rest);
    }
    assert(joined(all@) =~= Seq::<ScanResultView>::empty());
    assert(Seq::<ScanResultView>::empty() + out.deep_view() =~= out.deep_view());
    out
}

/// The report on the scan of one host.
pub fn generate_scan_report(results: &Vec<ScanResult>, target: &str) -> (r: ScanReport)
    ensures
        r.target@ == target@,
        r.total_targets.is_none(),
        r.total_ports == results.len(),
        r.open_ports == open_count(results.deep_view()),
        r.closed_ports == results.len() - open_count(results.deep_view()),
{
    let open = count_open(results);
    ScanReport {
        target: target.to_string(),
        total_targets: None,
        total_ports: results.len(),
        open_ports: open,
        closed_ports: results.len() - open,
    }
}

/// The report on the scan of several hosts, from their joined records.
pub fn generate_network_scan_report(
    results: &Vec<ScanResult>,
    total_targets: usize,
    target_spec: &str,
) -> (r: ScanReport)
    ensures
        r.target@ == network_target(target_spec@, total_targets),
        r.total_targets == Some(total_targets),
        r.total_ports == results.len(),
        r.open_ports == open_count(results.deep_view()),
        r.closed_ports == results.len() - open_count(results.deep_view()),
{
    let open = count_open(results);
    let mut target = to_chars(target_spec);
    append_str(&mut target, " (");
    let count = decimal_chars(total_targets as u64);
    append(&mut target, &count);
    append_str(&mut target, " hosts)");
    ScanReport {
        target: from_chars(&target),
        total_targets: Some(total_targets),
        total_ports: results.len(),
        open_ports: open,
        closed_ports: results.len() - open,
    }
}

impl ScanReport {
    /// The entries of the summary that the figures give, each a key with its
    /// value: the target, the number of targets if set, the numbers of ports.
    pub open spec fn summary(&self) -> Seq<(Seq<char>, Seq<char>)> {
        let head = seq![("target"@, self.target@)];
        let targets = match self.total_targets {
            Some(n) => seq![("total_targets"@, decimal(n as nat))],
            None => Seq::empty(),
        };
        head + targets + seq![
            ("total_ports"@, decimal(self.total_ports as nat)),
            ("open_ports"@, decimal(self.open_ports as nat)),
            ("closed_ports"@, decimal(self.closed_ports as nat)),
        ]
    }

    /// The entries of the summary that the figures give.
    pub fn summary_entries(&self) -> (r: Vec<(String, String)>)
        ensures
            r.deep_view() == self.summary(),
    {
        let mut out: Vec<(String, String)> = Vec::new();
        out.push(("target".to_string(), self.target.clone()));
        if let Some(n) = self.total_targets {
            out.push(("total_targets".to_string(), from_chars(&decimal_chars(n as u64))));
        }
        out.push(("total_ports".to_string(), from_chars(&decimal_chars(self.total_ports as u64))));
        out.push(("open_ports".to_string(), from_chars(&decimal_chars(self.open_ports as u64))));
        out.push(
            ("closed_ports".to_string(), from_chars(&decimal_chars(self.closed_ports as u64))),
        );
        assert(out.deep_view() =~= self.summary());
        out
    }
}

} // verus!
