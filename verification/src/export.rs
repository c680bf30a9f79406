//! The report emitters: CSV, Markdown and HTML text from the results of a run.
//!
//! Only open ports are reported. A report on several hosts groups the rows by
//! host, the hosts ordered by their text.

use crate::html_template::{
    HOST_END, HOST_HEAD_0, HOST_HEAD_1, HOST_HEAD_10, HOST_HEAD_2, HOST_HEAD_3, HOST_HEAD_4,
    HOST_HEAD_5, HOST_HEAD_6, HOST_HEAD_7, HOST_HEAD_8, HOST_HEAD_9, NO_RESULTS, PAGE_END_0,
    PAGE_END_1, PAGE_HEAD_0, PAGE_HEAD_1, PAGE_HEAD_2, PAGE_HEAD_3, PAGE_HEAD_4, PAGE_HEAD_5,
    PAGE_HEAD_6, ROW_0, ROW_1, ROW_2, ROW_3, ROW_4, ROW_5,
};
use crate::report::ScanReport;
use crate::scanner::{ScanResult, ScanResultView};
use crate::targets::IpAddress;
use crate::text::{
    append, append_str, decimal, decimal_chars, from_chars, lemma_lex_le_total,
    lemma_lex_le_transitive, lex_le, lex_le_chars, replace_char, replace_with, replace_with_str,
    replaced, subrange, to_chars,
};
use crate::vuln::{VulnSeverity, Vulnerability, VulnerabilityView};
use vstd::prelude::*;

verus! {

/// The formats in which a report can be written.
#[derive(Debug, Clone, Copy, PartialEq, Eq, Structural, Hash)]
pub enum ExportFormat {
    Json,
    Markdown,
    Csv,
    Html,
}

/// The first line of a CSV report.
pub const CSV_HEADER: &'static str = "Port,Status,Service,Banner,ResponseTime(ms),Vulnerabilities\n";

/// The two lines that begin a Markdown table of ports.
pub const MARKDOWN_TABLE_HEAD: &'static str =
    "| Port | Service | Banner | Response Time | Vulnerabilities |\n|------|---------|--------|--------------|----------------|\n";

/// What stands in an HTML report for a port without vulnerabilities.
pub const HTML_NO_VULNERABILITIES: &'static str = "<span style=\"color: #6b7280;\">None</span>";

/// What stands in HTML for a character.
pub open spec fn escaped_char(c: char) -> Seq<char> {
    if c == '&' {
        "&amp;"@
    } else if c == '<' {
        "&lt;"@
    } else if c == '>' {
        "&gt;"@
    } else if c == '"' {
        "&quot;"@
    } else if c == '\'' {
        "&#x27;"@
    } else {
        seq![c]
    }
}

/// A text with the characters `&`, `<`, `>` and both quotes replaced by their
/// HTML entities.
pub open spec fn html_escaped(s: Seq<char>) -> Seq<char>
    decreases s.len(),
{
    if s.len() == 0 {
        s
    } else {
        html_escaped(s.drop_last()) + escaped_char(s.last())
    }
}

/// Escaping goes character by character, so it distributes over concatenation.
pub proof fn lemma_html_escaped_concat(a: Seq<char>, b: Seq<char>)
    ensures
        html_escaped(a + b) == html_escaped(a) + html_escaped(b),
    decreases b.len(),
{
    if b.len() == 0 {
        assert(a + b =~= a);
        assert(html_escaped(a) + html_escaped(b) =~= html_escaped(a));
    } else {
        lemma_html_escaped_concat(a, b.drop_last());
        assert((a + b).drop_last() =~= a + b.drop_last());
        assert((a + b).last() == b.last());
        assert((html_escaped(a) + html_escaped(b.drop_last())) + escaped_char(b.last())
            =~= html_escaped(a) + (html_escaped(b.drop_last()) + escaped_char(b.last())));
    }
}

/// Escapes a text for HTML.
pub fn html_escape(input: &str) -> (r: String)
    ensures
        r@ == html_escaped(input@),
{
    let v = to_chars(input);
    let mut out: Vec<char> = Vec::new();
    let mut i: usize = 0;
    assert(v@.take(0) =~= Seq::<char>::empty());
    while i < v.len()
        invariant
            i <= v.len(),
            out@ == html_escaped(v@.take(i as int)),
        decreases v.len() - i,
    {
        assert(v@.take(i + 1).drop_last() =~= v@.take(i as int));
        assert(v@.take(i + 1).last() == v@[i as int]);
        let c = v[i];
        if c == '&' {
            append_str(&mut out, "&amp;");
        } else if c == '<' {
            append_str(&mut out, "&lt;");
        } else if c == '>' {
            append_str(&mut out, "&gt;");
        } else if c == '"' {
            append_str(&mut out, "&quot;");
        } else if c == '\'' {
            append_str(&mut out, "&#x27;");
        } else {
            out.push(c);
        }
        i += 1;
    }
    assert(v@.take(v.len() as int) =~= v@);
    from_chars(&out)
}

/// The text of an optional value, or `default` if it is absent.
pub open spec fn text_or(value: Option<Seq<char>>, default: Seq<char>) -> Seq<char> {
    match value {
        Some(t) => t,
        None => default,
    }
}

fn chars_or(value: &Option<String>, default: &str) -> (r: Vec<char>)
    ensures
        r@ == text_or(value.deep_view(), default@),
{
    match value {
        Some(t) => to_chars(t.as_str()),
        None => to_chars(default),
    }
}

/// A vulnerability as a report names it: its identifier and its severity.
pub open spec fn vulnerability_label(v: VulnerabilityView) -> Seq<char> {
    v.cve + " ("@ + v.severity.name() + ")"@
}

/// The labels of the vulnerabilities, each behind `mark`, with `separator`
/// between them.
pub open spec fn labels(list: Seq<VulnerabilityView>, mark: Seq<char>, separator: Seq<char>) -> Seq<
    char,
>
    decreases list.len(),
{
    if list.len() == 0 {
        Seq::empty()
    } else if list.len() == 1 {
        mark + vulnerability_label(list[0])
    } else {
        labels(list.drop_last(), mark, separator) + separator + mark + vulnerability_label(
            list.last(),
        )
    }
}

/// The vulnerabilities of a port as a table cell, or `None` if it has none.
pub open spec fn vulnerability_cell(
    list: Seq<VulnerabilityView>,
    mark: Seq<char>,
    separator: Seq<char>,
) -> Seq<char> {
    if list.len() == 0 {
        "None"@
    } else {
        labels(list, mark, separator)
    }
}

fn label_chars(v: &Vulnerability) -> (r: Vec<char>)
    ensures
        r@ == vulnerability_label(v.deep_view()),
{
    let mut out = to_chars(v.cve.as_str());
    append_str(&mut out, " (");
    append_str(&mut out, v.severity.to_string());
    append_str(&mut out, ")");
    out
}

fn cell_chars(list: &Vec<Vulnerability>, mark: &str, separator: &str) -> (r: Vec<char>)
    ensures
        r@ == vulnerability_cell(list.deep_view(), mark@, separator@),
{
    if list.len() == 0 {
        return to_chars("None");
    }
    let mut out: Vec<char> = Vec::new();
    let mut i: usize = 0;
    assert(list.deep_view().take(0) =~= Seq::<VulnerabilityView>::empty());
    while i < list.len()
        invariant
            i <= list.len(),
            out@ == labels(list.deep_view().take(i as int), mark@, separator@),
        decreases list.len() - i,
    {
        let ghost next = list.deep_view().take(i + 1);
        assert(next.drop_last() =~= list.deep_view().take(i as int));
        assert(next.last() == list@[i as int].deep_view());
        let ghost before = out@;
        if i > 0 {
            append_str(&mut out, separator);
        }
        append_str(&mut out, mark);
        let label = label_chars(&list[i]);
        append(&mut out, &label);
        proof {
            if i == 0 {
                assert(next.len() == 1);
                assert(out@ =~= mark@ + vulnerability_label(next[0]));
            } else {
                assert(out@ =~= before + separator@ + mark@ + vulnerability_label(next.last()));
            }
        }
        i += 1;
    }
    assert(list.deep_view().take(list.len() as int) =~= list.deep_view());
    out
}

/// The CSV line of an open port.
pub open spec fn csv_row(r: ScanResultView) -> Seq<char> {
    decimal(r.port as nat) + ",Open,\""@ + text_or(r.service, "Unknown"@) + "\",\""@
        + replace_with(text_or(r.banner, "N/A"@), '"', "\"\""@) + "\","@ + decimal(
        r.response_time as nat,
    ) + ",\""@ + replace_with(vulnerability_cell(r.vulnerabilities, ""@, "; "@), '"', "\"\""@)
        + "\"\n"@
}

/// The CSV lines of the open ports among the results.
pub open spec fn csv_rows(results: Seq<ScanResultView>) -> Seq<char>
    decreases results.len(),
{
    if results.len() == 0 {
        Seq::empty()
    } else if results.last().is_open {
        csv_rows(results.drop_last()) + csv_row(results.last())
    } else {
        csv_rows(results.drop_last())
    }
}

/// The CSV report: the header, then a line for each open port.
pub open spec fn csv_document(results: Seq<ScanResultView>) -> Seq<char> {
    CSV_HEADER@ + csv_rows(results)
}

fn csv_row_chars(r: &ScanResult) -> (row: Vec<char>)
    ensures
        row@ == csv_row(r.deep_view()),
{
    let mut row = decimal_chars(r.port as u64);
    append_str(&mut row, ",Open,\"");
    let service = chars_or(&r.service, "Unknown");
    append(&mut row, &service);
    append_str(&mut row, "\",\"");
    let banner = replace_with_str(&chars_or(&r.banner, "N/A"), '"', "\"\"");
    append(&mut row, &banner);
    append_str(&mut row, "\",");
    let time = decimal_chars(r.response_time);
    append(&mut row, &time);
    append_str(&mut row, ",\"");
    let cell = replace_with_str(&cell_chars(&r.vulnerabilities, "", "; "), '"', "\"\"");
    append(&mut row, &cell);
    append_str(&mut row, "\"\n");
    row
}

/// Writes the CSV report.
pub fn export_to_csv(results: &Vec<ScanResult>) -> (r: String)
    ensures
        r@ == csv_document(results.deep_view()),
{
    let mut out = to_chars(CSV_HEADER);
    let mut i: usize = 0;
    let ghost views = results.deep_view();
    assert(views.take(0) =~= Seq::<ScanResultView>::empty());
    assert(out@ =~= CSV_HEADER@ + csv_rows(views.take(0)));
    while i < results.len()
        invariant
            i <= results.len(),
            views == results.deep_view(),
            out@ == CSV_HEADER@ + csv_rows(views.take(i as int)),
        decreases results.len() - i,
    {
        assert(views.take(i + 1).drop_last() =~= views.take(i as int));
        assert(views.take(i + 1).last() == results@[i as int].deep_view());
        if results[i].is_open {
            let row = csv_row_chars(&results[i]);
            append(&mut out, &row);
            assert(out@ =~= CSV_HEADER@ + csv_rows(views.take(i + 1)));
        }
        i += 1;
    }
    assert(views.take(results.len() as int) =~= views);
    from_chars(&out)
}

/// The hosts with an open port, each once, in the order in which the results
/// first name them.
pub open spec fn open_hosts(results: Seq<ScanResultView>) -> Seq<IpAddress>
    decreases results.len(),
{
    if results.len() == 0 {
        Seq::empty()
    } else {
        let before = open_hosts(results.drop_last());
        if results.last().is_open && !before.contains(results.last().target) {
            before.push(results.last().target)
        } else {
            before
        }
    }
}

/// `hosts`, ordered by text, with `host` put behind every host whose text does
/// not come after its own.
pub open spec fn placed(hosts: Seq<IpAddress>, host: IpAddress) -> Seq<IpAddress>
    decreases hosts.len(),
{
    if hosts.len() == 0 || lex_le(hosts.last().text(), host.text()) {
        hosts.push(host)
    } else {
        placed(hosts.drop_last(), host).push(hosts.last())
    }
}

/// The hosts ordered by their text.
pub open spec fn host_order(hosts: Seq<IpAddress>) -> Seq<IpAddress>
    decreases hosts.len(),
{
    if hosts.len() == 0 {
        hosts
    } else {
        placed(host_order(hosts.drop_last()), hosts.last())
    }
}

/// Whether the texts of the hosts never descend.
pub open spec fn text_ordered(hosts: Seq<IpAddress>) -> bool {
    forall|i: int, j: int|
        0 <= i <= j < hosts.len() ==> lex_le((#[trigger] hosts[i]).text(), (#[trigger] hosts[j]).text())
}

/// Placing a host into an ordered sequence keeps it ordered, and adds the
/// host to those it holds.
#[verifier::rlimit(50)]
pub proof fn lemma_placed(hosts: Seq<IpAddress>, host: IpAddress)
    requires
        text_ordered(hosts),
    ensures
        text_ordered(placed(hosts, host)),
        placed(hosts, host).len() == hosts.len() + 1,
        forall|h: IpAddress|
            #[trigger] placed(hosts, host).contains(h) <==> (hosts.contains(h) || h == host),
    decreases hosts.len(),
{
    let out = placed(hosts, host);
    if hosts.len() == 0 || lex_le(hosts.last().text(), host.text()) {
        assert forall|i: int, j: int| 0 <= i <= j < out.len() implies lex_le(
            (#[trigger] out[i]).text(),
            (#[trigger] out[j]).text(),
        ) by {
            if j == hosts.len() {
                if i < hosts.len() {
                    assert(out[i] == hosts[i]);
                    lemma_lex_le_transitive(
                        hosts[i].text(),
                        hosts.last().text(),
                        host.text(),
                    );
                } else {
                    lemma_lex_le_total(host.text(), host.text());
                }
            } else {
                assert(out[i] == hosts[i] && out[j] == hosts[j]);
            }
        }
        assert forall|h: IpAddress| #[trigger] out.contains(h) <==> (hosts.contains(h) || h
            == host) by {
            if out.contains(h) {
                let i = choose|i: int| 0 <= i < out.len() && out[i] == h;
                if i < hosts.len() {
                    assert(hosts[i] == h);
                }
            }
            if hosts.contains(h) {
                let i = choose|i: int| 0 <= i < hosts.len() && hosts[i] == h;
                assert(out[i] == h);
            }
            if h == host {
                assert(out[hosts.len() as int] == h);
            }
        }
    } else {
        let rest = hosts.drop_last();
        assert(text_ordered(rest)) by {
            assert forall|i: int, j: int| 0 <= i <= j < rest.len() implies lex_le(
                (#[trigger] rest[i]).text(),
                (#[trigger] rest[j]).text(),
            ) by {
                assert(rest[i] == hosts[i] && rest[j] == hosts[j]);
            }
        }
        lemma_placed(rest, host);
        let inner = placed(rest, host);
        lemma_lex_le_total(hosts.last().text(), host.text());
        assert forall|i: int, j: int| 0 <= i <= j < out.len() implies lex_le(
            (#[trigger] out[i]).text(),
            (#[trigger] out[j]).text(),
        ) by {
            if j == inner.len() {
                if i < inner.len() {
                    assert(out[i] == inner[i]);
                    assert(inner.contains(inner[i]));
                    if inner[i] == host {
                    } else {
                        assert(rest.contains(inner[i]));
                        let k = choose|k: int| 0 <= k < rest.len() && rest[k] == inner[i];
                        assert(hosts[k] == inner[i]);
                        assert(lex_le(hosts[k].text(), hosts[hosts.len() - 1].text()));
                    }
                } else {
                    lemma_lex_le_total(hosts.last().text(), hosts.last().text());
                }
            } else {
                assert(out[i] == inner[i] && out[j] == inner[j]);
            }
        }
        assert forall|h: IpAddress| #[trigger] out.contains(h) <==> (hosts.contains(h) || h
            == host) by {
            if out.contains(h) {
                let i = choose|i: int| 0 <= i < out.len() && out[i] == h;
                if i < inner.len() {
                    assert(inner[i] == h);
                    assert(inner.contains(h));
                    if rest.contains(h) {
                        let k = choose|k: int| 0 <= k < rest.len() && rest[k] == h;
                        assert(hosts[k] == h);
                    }
                } else {
                    assert(hosts[hosts.len() - 1] == h);
                }
            }
            if hosts.contains(h) {
                let i = choose|i: int| 0 <= i < hosts.len() && hosts[i] == h;
                if i < rest.len() {
                    assert(rest[i] == h);
                    assert(rest.contains(h));
                    assert(inner.contains(h));
                    let k = choose|k: int| 0 <= k < inner.len() && inner[k] == h;
                    assert(out[k] == h);
                } else {
                    assert(out[inner.len() as int] == h);
                }
            }
            if h == host {
                assert(inner.contains(h));
                let k = choose|k: int| 0 <= k < inner.len() && inner[k] == h;
                assert(out[k] == h);
            }
        }
    }
}

/// The hosts of a report come ordered by text, and are the hosts given.
pub proof fn lemma_host_order(hosts: Seq<IpAddress>)
    ensures
        text_ordered(host_order(hosts)),
        host_order(hosts).len() == hosts.len(),
        forall|h: IpAddress| #[trigger] host_order(hosts).contains(h) <==> hosts.contains(h),
    decreases hosts.len(),
{
    if hosts.len() > 0 {
        let rest = hosts.drop_last();
        lemma_host_order(rest);
        lemma_placed(host_order(rest), hosts.last());
        let out = host_order(hosts);
        assert forall|h: IpAddress| #[trigger] out.contains(h) <==> hosts.contains(h) by {
            if hosts.contains(h) {
                let i = choose|i: int| 0 <= i < hosts.len() && hosts[i] == h;
                if i < rest.len() {
                    assert(rest[i] == h);
                    assert(rest.contains(h));
                }
            }
            if rest.contains(h) {
                let i = choose|i: int| 0 <= i < rest.len() && rest[i] == h;
                assert(hosts[i] == h);
            }
            if h == hosts.last() {
                assert(hosts[hosts.len() - 1] == h);
            }
        }
    }
}

/// The hosts of a report: those with an open port, ordered by their text.
pub open spec fn report_hosts(results: Seq<ScanResultView>) -> Seq<IpAddress> {
    host_order(open_hosts(results))
}

fn holds_host(hosts: &Vec<IpAddress>, host: IpAddress) -> (r: bool)
    ensures
        r == hosts@.contains(host),
{
    let mut i: usize = 0;
    while i < hosts.len()
        invariant
            i <= hosts.len(),
            forall|k: int| 0 <= k < i ==> hosts@[k] != host,
        decreases hosts.len() - i,
    {
        if hosts[i] == host {
            return true;
        }
        i += 1;
    }
    false
}

/// The hosts of a report, each with its text.
#[verifier::rlimit(50)]
fn hosts_of(results: &Vec<ScanResult>) -> (r: (Vec<IpAddress>, Vec<Vec<char>>))
    ensures
        r.0@ == report_hosts(results.deep_view()),
        r.1.len() == r.0.len(),
        forall|i: int| 0 <= i < r.0.len() ==> (#[trigger] r.1@[i])@ == r.0@[i].text(),
{
    let ghost views = results.deep_view();
    let mut seen: Vec<IpAddress> = Vec::new();
    let mut i: usize = 0;
    assert(views.take(0) =~= Seq::<ScanResultView>::empty());
    while i < results.len()
        invariant
            i <= results.len(),
            views == results.deep_view(),
            seen@ == open_hosts(views.take(i as int)),
        decreases results.len() - i,
    {
        assert(views.take(i + 1).drop_last() =~= views.take(i as int));
        assert(views.take(i + 1).last() == results@[i as int].deep_view());
        if results[i].is_open && !holds_host(&seen, results[i].target) {
            seen.push(results[i].target);
        }
        i += 1;
    }
    assert(views.take(results.len() as int) =~= views);
    let mut hosts: Vec<IpAddress> = Vec::new();
    let mut texts: Vec<Vec<char>> = Vec::new();
    let mut n: usize = 0;
    assert(seen@.take(0) =~= Seq::<IpAddress>::empty());
    while n < seen.len()
        invariant
            n <= seen.len(),
            hosts@ == host_order(seen@.take(n as int)),
            texts.len() == hosts.len(),
            forall|k: int| 0 <= k < hosts.len() ==> (#[trigger] texts@[k])@ == hosts@[k].text(),
        decreases seen.len() - n,
    {
        let host = seen[n];
        let text = to_chars(host.to_text().as_str());
        assert(seen@.take(n + 1).drop_last() =~= seen@.take(n as int));
        assert(seen@.take(n + 1).last() == host);
        let ghost sorted = hosts@;
        let mut at: usize = hosts.len();
        assert(sorted.take(at as int) =~= sorted);
        assert(sorted.skip(at as int) =~= Seq::<IpAddress>::empty());
        assert(placed(sorted.take(at as int), host) + sorted.skip(at as int) =~= placed(
            sorted,
            host,
        ));
        while at > 0 && !lex_le_chars(&texts[at - 1], &text)
            invariant
                at <= hosts.len(),
                sorted == hosts@,
                texts.len() == hosts.len(),
                text@ == host.text(),
                forall|k: int|
                    0 <= k < hosts.len() ==> (#[trigger] texts@[k])@ == hosts@[k].text(),
                placed(sorted, host) == placed(sorted.take(at as int), host) + sorted.skip(
                    at as int,
                ),
            decreases at,
        {
            let ghost part = sorted.take(at as int);
            assert(part.last() == sorted[at - 1]);
            assert(part.drop_last() =~= sorted.take(at - 1));
            assert(placed(part, host) == placed(sorted.take(at - 1), host).push(sorted[at - 1]));
            assert(placed(sorted.take(at - 1), host).push(sorted[at - 1]) + sorted.skip(at as int)
                =~= placed(sorted.take(at - 1), host) + sorted.skip(at - 1));
            at -= 1;
        }
        proof {
            let part = sorted.take(at as int);
            if at > 0 {
                assert(part.last() == sorted[at - 1]);
            }
            assert(placed(part, host) == part.push(host));
            assert(part.push(host) + sorted.skip(at as int) =~= sorted.insert(at as int, host));
        }
        hosts.insert(at, host);
        texts.insert(at, text);
        n += 1;
    }
    assert(seen@.take(seen.len() as int) =~= seen@);
    (hosts, texts)
}

/// A Markdown table row of an open port.
pub open spec fn markdown_row(r: ScanResultView) -> Seq<char> {
    "| "@ + decimal(r.port as nat) + " | "@ + text_or(r.service, "Unknown"@) + " | "@
        + replace_with(text_or(r.banner, "N/A"@), '|', "\\|"@) + " | "@ + decimal(
        r.response_time as nat,
    ) + "ms | "@ + replace_with(vulnerability_cell(r.vulnerabilities, "🔴 "@, "<br>"@), '|', "\\|"@)
        + " |\n"@
}

/// The Markdown rows of the open ports of `host` among the results.
pub open spec fn markdown_rows(results: Seq<ScanResultView>, host: IpAddress) -> Seq<char>
    decreases results.len(),
{
    if results.len() == 0 {
        Seq::empty()
    } else if results.last().is_open && results.last().target == host {
        markdown_rows(results.drop_last(), host) + markdown_row(results.last())
    } else {
        markdown_rows(results.drop_last(), host)
    }
}

/// The Markdown sections of the hosts, each with its heading and its table.
pub open spec fn markdown_sections(results: Seq<ScanResultView>, hosts: Seq<IpAddress>) -> Seq<
    char,
>
    decreases hosts.len(),
{
    if hosts.len() == 0 {
        Seq::empty()
    } else {
        markdown_sections(results, hosts.drop_last()) + "### 🖥️ Host: "@ + hosts.last().text()
            + "\n\n"@ + MARKDOWN_TABLE_HEAD@ + markdown_rows(results, hosts.last()) + "\n"@
    }
}

/// The part of a Markdown report that lists the open ports: a notice if
/// there are none, one table for a single host, a section for each of
/// several hosts.
pub open spec fn markdown_ports(results: Seq<ScanResultView>) -> Seq<char> {
    let hosts = report_hosts(results);
    if hosts.len() == 0 {
        "## 🚫 No Open Ports Found\n\nAll scanned ports were closed or filtered.\n"@
    } else if hosts.len() == 1 {
        "## 🟢 Open Ports\n\n"@ + MARKDOWN_TABLE_HEAD@ + markdown_rows(results, hosts[0])
    } else {
        "## 🟢 Open Ports\n\n"@ + markdown_sections(results, hosts)
    }
}

/// The part of a Markdown report that gives the figures of the scan.
pub open spec fn markdown_information(
    report: &ScanReport,
    scan_duration: Seq<char>,
    timestamp: Seq<char>,
) -> Seq<char> {
    "# 🔍 NullScan Report\n\n## 📊 Scan Information\n\n- **Target:** "@ + report.target@
        + "\n- **Total Ports Scanned:** "@ + decimal(report.total_ports as nat)
        + "\n- **Open Ports:** "@ + decimal(report.open_ports as nat) + "\n- **Closed Ports:** "@
        + decimal(report.closed_ports as nat) + "\n- **Scan Duration:** "@ + scan_duration
        + "\n- **Timestamp:** "@ + timestamp + "\n\n"@
}

/// The Markdown report.
pub open spec fn markdown_document(
    results: Seq<ScanResultView>,
    report: &ScanReport,
    scan_duration: Seq<char>,
    timestamp: Seq<char>,
) -> Seq<char> {
    markdown_information(report, scan_duration, timestamp) + markdown_ports(results)
        + "\n---\n*Generated by NullScan v1.6.0*\n"@
}

fn markdown_row_chars(r: &ScanResult) -> (row: Vec<char>)
    ensures
        row@ == markdown_row(r.deep_view()),
{
    let mut row = to_chars("| ");
    let port = decimal_chars(r.port as u64);
    append(&mut row, &port);
    append_str(&mut row, " | ");
    let service = chars_or(&r.service, "Unknown");
    append(&mut row, &service);
    append_str(&mut row, " | ");
    let banner = replace_with_str(&chars_or(&r.banner, "N/A"), '|', "\\|");
    append(&mut row, &banner);
    append_str(&mut row, " | ");
    let time = decimal_chars(r.response_time);
    append(&mut row, &time);
    append_str(&mut row, "ms | ");
    let cell = replace_with_str(&cell_chars(&r.vulnerabilities, "🔴 ", "<br>"), '|', "\\|");
    append(&mut row, &cell);
    append_str(&mut row, " |\n");
    row
}

fn push_markdown_rows(out: &mut Vec<char>, results: &Vec<ScanResult>, host: IpAddress)
    ensures
        final(out)@ == old(out)@ + markdown_rows(results.deep_view(), host),
{
    let ghost views = results.deep_view();
    let mut i: usize = 0;
    assert(views.take(0) =~= Seq::<ScanResultView>::empty());
    assert(out@ =~= old(out)@ + markdown_rows(views.take(0), host));
    while i < results.len()
        invariant
            i <= results.len(),
            views == results.deep_view(),
            out@ == old(out)@ + markdown_rows(views.take(i as int), host),
        decreases results.len() - i,
    {
        assert(views.take(i + 1).drop_last() =~= views.take(i as int));
        assert(views.take(i + 1).last() == results@[i as int].deep_view());
        if results[i].is_open && results[i].target == host {
            let row = markdown_row_chars(&results[i]);
            append(out, &row);
            assert(out@ =~= old(out)@ + markdown_rows(views.take(i + 1), host));
        }
        i += 1;
    }
    assert(views.take(results.len() as int) =~= views);
}

/// Writes the Markdown report. `scan_duration` and `timestamp` are written
/// as they are given.
pub fn export_to_markdown(
    results: &Vec<ScanResult>,
    report: &ScanReport,
    scan_duration: &str,
    timestamp: &str,
) -> (r: String)
    ensures
        r@ == markdown_document(results.deep_view(), report, scan_duration@, timestamp@),
{
    let mut out = to_chars("# 🔍 NullScan Report\n\n## 📊 Scan Information\n\n- **Target:** ");
    append_str(&mut out, report.target.as_str());
    append_str(&mut out, "\n- **Total Ports Scanned:** ");
    let total = decimal_chars(report.total_ports as u64);
    append(&mut out, &total);
    append_str(&mut out, "\n- **Open Ports:** ");
    let open = decimal_chars(report.open_ports as u64);
    append(&mut out, &open);
    append_str(&mut out, "\n- **Closed Ports:** ");
    let closed = decimal_chars(report.closed_ports as u64);
    append(&mut out, &closed);
    append_str(&mut out, "\n- **Scan Duration:** ");
    append_str(&mut out, scan_duration);
    append_str(&mut out, "\n- **Timestamp:** ");
    append_str(&mut out, timestamp);
    append_str(&mut out, "\n\n");
    assert(out@ == markdown_information(report, scan_duration@, timestamp@));
    let ghost head = out@;
    let (hosts, texts) = hosts_of(results);
    if hosts.len() == 0 {
        append_str(
            &mut out,
            "## 🚫 No Open Ports Found\n\nAll scanned ports were closed or filtered.\n",
        );
    } else if hosts.len() == 1 {
        append_str(&mut out, "## 🟢 Open Ports\n\n");
        append_str(&mut out, MARKDOWN_TABLE_HEAD);
        push_markdown_rows(&mut out, results, hosts[0]);
        assert(out@ =~= head + markdown_ports(results.deep_view()));
    } else {
        append_str(&mut out, "## 🟢 Open Ports\n\n");
        let ghost start = out@;
        let mut n: usize = 0;
        assert(hosts@.take(0) =~= Seq::<IpAddress>::empty());
        assert(out@ =~= start + markdown_sections(results.deep_view(), hosts@.take(0)));
        while n < hosts.len()
            invariant
                n <= hosts.len(),
                texts.len() == hosts.len(),
                forall|k: int|
                    0 <= k < hosts.len() ==> (#[trigger] texts@[k])@ == hosts@[k].text(),
                out@ == start + markdown_sections(results.deep_view(), hosts@.take(n as int)),
            decreases hosts.len() - n,
        {
            assert(hosts@.take(n + 1).drop_last() =~= hosts@.take(n as int));
            assert(hosts@.take(n + 1).last() == hosts@[n as int]);
            append_str(&mut out, "### 🖥️ Host: ");
            append(&mut out, &texts[n]);
            append_str(&mut out, "\n\n");
            append_str(&mut out, MARKDOWN_TABLE_HEAD);
            push_markdown_rows(&mut out, results, hosts[n]);
            append_str(&mut out, "\n");
            assert(out@ =~= start + markdown_sections(results.deep_view(), hosts@.take(n + 1)));
            n += 1;
        }
        assert(hosts@.take(hosts.len() as int) =~= hosts@);
        assert(out@ =~= head + markdown_ports(results.deep_view()));
    }
    append_str(&mut out, "\n---\n*Generated by NullScan v1.6.0*\n");
    from_chars(&out)
}

/// The colour in which an HTML report writes a severity.
pub open spec fn severity_color(severity: VulnSeverity) -> Seq<char> {
    match severity {
        VulnSeverity::Critical => "#dc2626"@,
        VulnSeverity::High => "#ea580c"@,
        VulnSeverity::Medium => "#d97706"@,
        VulnSeverity::Low => "#059669"@,
        VulnSeverity::Info => "#6b7280"@,
    }
}

/// The HTML block of one vulnerability.
pub open spec fn html_vulnerability(v: VulnerabilityView) -> Seq<char> {
    "<div style=\"color: "@ + severity_color(v.severity) + "; font-weight: 600; margin: 2px 0;\">🔴 "@
        + vulnerability_label(v) + "</div>"@
}

/// The HTML blocks of the vulnerabilities.
pub open spec fn html_vulnerability_blocks(list: Seq<VulnerabilityView>) -> Seq<char>
    decreases list.len(),
{
    if list.len() == 0 {
        Seq::empty()
    } else {
        html_vulnerability_blocks(list.drop_last()) + html_vulnerability(list.last())
    }
}

/// The vulnerabilities of a port as an HTML table cell.
pub open spec fn html_vulnerabilities(list: Seq<VulnerabilityView>) -> Seq<char> {
    if list.len() == 0 {
        HTML_NO_VULNERABILITIES@
    } else {
        html_vulnerability_blocks(list)
    }
}

/// An HTML table row of an open port. Of its cells only the banner is escaped.
pub open spec fn html_row(r: ScanResultView) -> Seq<char> {
    ROW_0@ + decimal(r.port as nat) + ROW_1@ + text_or(r.service, "Unknown"@) + ROW_2@
        + html_escaped(text_or(r.banner, "N/A"@)) + ROW_3@ + html_vulnerabilities(r.vulnerabilities)
        + ROW_4@ + decimal(r.response_time as nat) + ROW_5@
}

/// The HTML rows of the open ports of `host` among the results.
pub open spec fn html_rows(results: Seq<ScanResultView>, host: IpAddress) -> Seq<char>
    decreases results.len(),
{
    if results.len() == 0 {
        Seq::empty()
    } else if results.last().is_open && results.last().target == host {
        html_rows(results.drop_last(), host) + html_row(results.last())
    } else {
        html_rows(results.drop_last(), host)
    }
}

/// The number of open ports of `host` among the results.
pub open spec fn open_ports_of(results: Seq<ScanResultView>, host: IpAddress) -> nat
    decreases results.len(),
{
    if results.len() == 0 {
        0
    } else if results.last().is_open && results.last().target == host {
        open_ports_of(results.drop_last(), host) + 1
    } else {
        open_ports_of(results.drop_last(), host)
    }
}

/// The name by which the page's script finds the table of a host: the host's
/// text with `_` for every `.` and `:`.
pub open spec fn host_id(host: IpAddress) -> Seq<char> {
    replaced(replaced(host.text(), '.', '_'), ':', '_')
}

/// The HTML group of one host: its head, its rows and the end of its table.
pub open spec fn html_host(results: Seq<ScanResultView>, host: IpAddress) -> Seq<char> {
    HOST_HEAD_0@ + host_id(host) + HOST_HEAD_1@ + host.text() + HOST_HEAD_2@ + decimal(
        open_ports_of(results, host),
    ) + HOST_HEAD_3@ + host_id(host) + HOST_HEAD_4@ + host_id(host) + HOST_HEAD_5@ + host_id(host)
        + HOST_HEAD_6@ + host_id(host) + HOST_HEAD_7@ + host_id(host) + HOST_HEAD_8@ + host_id(
        host,
    ) + HOST_HEAD_9@ + host_id(host) + HOST_HEAD_10@ + html_rows(results, host) + HOST_END@
}

/// The HTML groups of the hosts.
pub open spec fn html_hosts(results: Seq<ScanResultView>, hosts: Seq<IpAddress>) -> Seq<char>
    decreases hosts.len(),
{
    if hosts.len() == 0 {
        Seq::empty()
    } else {
        html_hosts(results, hosts.drop_last()) + html_host(results, hosts.last())
    }
}

/// What an HTML report names as its target: the host if one host has open
/// ports, the number of such hosts if several have, `Unknown` if none has.
pub open spec fn html_target(results: Seq<ScanResultView>) -> Seq<char> {
    let hosts = report_hosts(results);
    if hosts.len() > 1 {
        decimal(hosts.len()) + " hosts"@
    } else if hosts.len() == 1 {
        hosts[0].text()
    } else {
        "Unknown"@
    }
}

/// The HTML report.
pub open spec fn html_document(
    results: Seq<ScanResultView>,
    report: &ScanReport,
    scan_duration: Seq<char>,
    timestamp: Seq<char>,
) -> Seq<char> {
    let hosts = report_hosts(results);
    PAGE_HEAD_0@ + html_target(results) + PAGE_HEAD_1@ + html_target(results) + PAGE_HEAD_2@ + (
    if hosts.len() > 1 {
        "s"@
    } else {
        ""@
    }) + PAGE_HEAD_3@ + decimal(report.total_ports as nat) + PAGE_HEAD_4@ + decimal(
        report.open_ports as nat,
    ) + PAGE_HEAD_5@ + scan_duration + PAGE_HEAD_6@ + (if hosts.len() == 0 {
        NO_RESULTS@
    } else {
        html_hosts(results, hosts)
    }) + PAGE_END_0@ + timestamp + PAGE_END_1@
}

fn color_of(severity: VulnSeverity) -> (r: &'static str)
    ensures
        r@ == severity_color(severity),
{
    match severity {
        VulnSeverity::Critical => "#dc2626",
        VulnSeverity::High => "#ea580c",
        VulnSeverity::Medium => "#d97706",
        VulnSeverity::Low => "#059669",
        VulnSeverity::Info => "#6b7280",
    }
}

fn html_vulnerability_chars(list: &Vec<Vulnerability>) -> (r: Vec<char>)
    ensures
        r@ == html_vulnerabilities(list.deep_view()),
{
    if list.len() == 0 {
        return to_chars(HTML_NO_VULNERABILITIES);
    }
    let mut out: Vec<char> = Vec::new();
    let mut i: usize = 0;
    assert(list.deep_view().take(0) =~= Seq::<VulnerabilityView>::empty());
    while i < list.len()
        invariant
            i <= list.len(),
            out@ == html_vulnerability_blocks(list.deep_view().take(i as int)),
        decreases list.len() - i,
    {
        let ghost before = out@;
        let ghost next = list.deep_view().take(i + 1);
        assert(next.drop_last() =~= list.deep_view().take(i as int));
        assert(next.last() == list@[i as int].deep_view());
        append_str(&mut out, "<div style=\"color: ");
        append_str(&mut out, color_of(list[i].severity));
        append_str(&mut out, "; font-weight: 600; margin: 2px 0;\">🔴 ");
        let label = label_chars(&list[i]);
        append(&mut out, &label);
        append_str(&mut out, "</div>");
        assert(out@ =~= before + html_vulnerability(next.last()));
        i += 1;
    }
    assert(list.deep_view().take(list.len() as int) =~= list.deep_view());
    out
}

fn html_row_chars(r: &ScanResult) -> (row: Vec<char>)
    ensures
        row@ == html_row(r.deep_view()),
{
    let mut row = to_chars(ROW_0);
    let port = decimal_chars(r.port as u64);
    append(&mut row, &port);
    append_str(&mut row, ROW_1);
    let service = chars_or(&r.service, "Unknown");
    append(&mut row, &service);
    append_str(&mut row, ROW_2);
    let banner = match &r.banner {
        Some(b) => html_escape(b.as_str()),
        None => html_escape("N/A"),
    };
    append_str(&mut row, banner.as_str());
    append_str(&mut row, ROW_3);
    let cell = html_vulnerability_chars(&r.vulnerabilities);
    append(&mut row, &cell);
    append_str(&mut row, ROW_4);
    let time = decimal_chars(r.response_time);
    append(&mut row, &time);
    append_str(&mut row, ROW_5);
    row
}

fn push_html_rows(out: &mut Vec<char>, results: &Vec<ScanResult>, host: IpAddress)
    ensures
        final(out)@ == old(out)@ + html_rows(results.deep_view(), host),
{
    let ghost views = results.deep_view();
    let mut i: usize = 0;
    assert(views.take(0) =~= Seq::<ScanResultView>::empty());
    assert(out@ =~= old(out)@ + html_rows(views.take(0), host));
    while i < results.len()
        invariant
            i <= results.len(),
            views == results.deep_view(),
            out@ == old(out)@ + html_rows(views.take(i as int), host),
        decreases results.len() - i,
    {
        assert(views.take(i + 1).drop_last() =~= views.take(i as int));
        assert(views.take(i + 1).last() == results@[i as int].deep_view());
        if results[i].is_open && results[i].target == host {
            let row = html_row_chars(&results[i]);
            append(out, &row);
            assert(out@ =~= old(out)@ + html_rows(views.take(i + 1), host));
        }
        i += 1;
    }
    assert(views.take(results.len() as int) =~= views);
}

fn count_open_ports_of(results: &Vec<ScanResult>, host: IpAddress) -> (r: usize)
    ensures
        r == open_ports_of(results.deep_view(), host),
{
    let ghost views = results.deep_view();
    let mut n: usize = 0;
    let mut i: usize = 0;
    assert(views.take(0) =~= Seq::<ScanResultView>::empty());
    while i < results.len()
        invariant
            i <= results.len(),
            n <= i,
            views == results.deep_view(),
            n == open_ports_of(views.take(i as int), host),
        decreases results.len() - i,
    {
        assert(views.take(i + 1).drop_last() =~= views.take(i as int));
        assert(views.take(i + 1).last() == results@[i as int].deep_view());
        if results[i].is_open && results[i].target == host {
            n += 1;
        }
        i += 1;
    }
    assert(views.take(results.len() as int) =~= views);
    n
}

#[verifier::rlimit(50)]
fn html_host_chars(results: &Vec<ScanResult>, host: IpAddress, text: &Vec<char>) -> (group: Vec<
    char,
>)
    requires
        text@ == host.text(),
    ensures
        group@ == html_host(results.deep_view(), host),
{
    let id = replace_char(&replace_char(text, '.', '_'), ':', '_');
    let mut group = to_chars(HOST_HEAD_0);
    append(&mut group, &id);
    append_str(&mut group, HOST_HEAD_1);
    append(&mut group, text);
    append_str(&mut group, HOST_HEAD_2);
    let count = decimal_chars(count_open_ports_of(results, host) as u64);
    append(&mut group, &count);
    append_str(&mut group, HOST_HEAD_3);
    append(&mut group, &id);
    append_str(&mut group, HOST_HEAD_4);
    append(&mut group, &id);
    append_str(&mut group, HOST_HEAD_5);
    append(&mut group, &id);
    append_str(&mut group, HOST_HEAD_6);
    append(&mut group, &id);
    append_str(&mut group, HOST_HEAD_7);
    append(&mut group, &id);
    append_str(&mut group, HOST_HEAD_8);
    append(&mut group, &id);
    append_str(&mut group, HOST_HEAD_9);
    append(&mut group, &id);
    append_str(&mut group, HOST_HEAD_10);
    push_html_rows(&mut group, results, host);
    append_str(&mut group, HOST_END);
    group
}

/// Writes the HTML report. `scan_duration` and `timestamp` are written as
/// they are given.
pub fn export_to_html(
    results: &Vec<ScanResult>,
    report: &ScanReport,
    scan_duration: &str,
    timestamp: &str,
) -> (r: String)
    ensures
        r@ == html_document(results.deep_view(), report, scan_duration@, timestamp@),
{
    let (hosts, texts) = hosts_of(results);
    let target: Vec<char> = if hosts.len() > 1 {
        let mut t = decimal_chars(hosts.len() as u64);
        append_str(&mut t, " hosts");
        t
    } else if hosts.len() == 1 {
        subrange(&texts[0], 0, texts[0].len())
    } else {
        to_chars("Unknown")
    };
    assert(target@ =~= html_target(results.deep_view()));
    let mut out = to_chars(PAGE_HEAD_0);
    append(&mut out, &target);
    append_str(&mut out, PAGE_HEAD_1);
    append(&mut out, &target);
    append_str(&mut out, PAGE_HEAD_2);
    if hosts.len() > 1 {
        append_str(&mut out, "s");
    } else {
        append_str(&mut out, "");
    }
    append_str(&mut out, PAGE_HEAD_3);
    let total = decimal_chars(report.total_ports as u64);
    append(&mut out, &total);
    append_str(&mut out, PAGE_HEAD_4);
    let open = decimal_chars(report.open_ports as u64);
    append(&mut out, &open);
    append_str(&mut out, PAGE_HEAD_5);
    append_str(&mut out, scan_duration);
    append_str(&mut out, PAGE_HEAD_6);
    let ghost head = out@;
    if hosts.len() == 0 {
        append_str(&mut out, NO_RESULTS);
    } else {
        let mut n: usize = 0;
        assert(hosts@.take(0) =~= Seq::<IpAddress>::empty());
        assert(out@ =~= head + html_hosts(results.deep_view(), hosts@.take(0)));
        while n < hosts.len()
            invariant
                n <= hosts.len(),
                texts.len() == hosts.len(),
                forall|k: int|
                    0 <= k < hosts.len() ==> (#[trigger] texts@[k])@ == hosts@[k].text(),
                out@ == head + html_hosts(results.deep_view(), hosts@.take(n as int)),
            decreases hosts.len() - n,
        {
            assert(hosts@.take(n + 1).drop_last() =~= hosts@.take(n as int));
            assert(hosts@.take(n + 1).last() == hosts@[n as int]);
            let group = html_host_chars(results, hosts[n], &texts[n]);
            append(&mut out, &group);
            assert(out@ =~= head + html_hosts(results.deep_view(), hosts@.take(n + 1)));
            n += 1;
        }
        assert(hosts@.take(hosts.len() as int) =~= hosts@);
    }
    append_str(&mut out, PAGE_END_0);
    append_str(&mut out, timestamp);
    append_str(&mut out, PAGE_END_1);
    from_chars(&out)
}

} // verus!
