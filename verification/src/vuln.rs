//! Vulnerability records, the pattern database and the correlator that maps a
//! service banner to the vulnerabilities of every pattern it matches.

use crate::text::{
    contains, contains_chars, from_chars, lowercase, same_chars, strip_prefix,
    strip_prefix_chars, to_chars, to_lowercase, trim, trim_chars,
};
use vstd::prelude::*;

pub use crate::sample::create_sample_database;

verus! {

/// How severe a vulnerability is. `Critical` ranks first.
#[derive(Debug, Clone, Copy, PartialEq, Eq, Structural, Hash)]
pub enum VulnSeverity {
    Critical,
    High,
    Medium,
    Low,
    Info,
}

impl VulnSeverity {
    /// The rank by which vulnerabilities are ordered: 0 for `Critical` to 4 for `Info`.
    pub open spec fn rank(self) -> int {
        match self {
            VulnSeverity::Critical => 0,
            VulnSeverity::High => 1,
            VulnSeverity::Medium => 2,
            VulnSeverity::Low => 3,
            VulnSeverity::Info => 4,
        }
    }

    /// The severity's name.
    pub open spec fn name(self) -> Seq<char> {
        match self {
            VulnSeverity::Critical => "Critical"@,
            VulnSeverity::High => "High"@,
            VulnSeverity::Medium => "Medium"@,
            VulnSeverity::Low => "Low"@,
            VulnSeverity::Info => "Info"@,
        }
    }

    /// The coloured mark that stands for the severity in a report.
    pub open spec fn color_code(self) -> Seq<char> {
        match self {
            VulnSeverity::Critical => "🔴"@,
            VulnSeverity::High => "🟠"@,
            VulnSeverity::Medium => "🟡"@,
            VulnSeverity::Low => "🟢"@,
            VulnSeverity::Info => "🔵"@,
        }
    }

    /// The severity with the given rank, for ranks 0 to 4.
    pub open spec fn of_rank(rank: int) -> VulnSeverity {
        if rank == 0 {
            VulnSeverity::Critical
        } else if rank == 1 {
            VulnSeverity::High
        } else if rank == 2 {
            VulnSeverity::Medium
        } else if rank == 3 {
            VulnSeverity::Low
        } else {
            VulnSeverity::Info
        }
    }

    /// Computes the rank.
    pub fn severity_rank(&self) -> (r: u8)
        ensures
            r as int == self.rank(),
    {
        match self {
            VulnSeverity::Critical => 0,
            VulnSeverity::High => 1,
            VulnSeverity::Medium => 2,
            VulnSeverity::Low => 3,
            VulnSeverity::Info => 4,
        }
    }

    pub fn to_color_code(&self) -> (r: &'static str)
        ensures
            r@ == self.color_code(),
    {
        match self {
            VulnSeverity::Critical => "🔴",
            VulnSeverity::High => "🟠",
            VulnSeverity::Medium => "🟡",
            VulnSeverity::Low => "🟢",
            VulnSeverity::Info => "🔵",
        }
    }

    pub fn to_string(&self) -> (r: &'static str)
        ensures
            r@ == self.name(),
    {
        match self {
            VulnSeverity::Critical => "Critical",
            VulnSeverity::High => "High",
            VulnSeverity::Medium => "Medium",
            VulnSeverity::Low => "Low",
            VulnSeverity::Info => "Info",
        }
    }
}

/// A known vulnerability. `cvss_score` holds the CVSS score in tenths, so that
/// 53 stands for 5.3.
#[derive(Debug)]
pub struct Vulnerability {
    pub cve: String,
    pub description: String,
    pub severity: VulnSeverity,
    pub cvss_score: Option<u16>,
    pub published: Option<String>,
    pub references: Vec<String>,
}

/// What a `Vulnerability` holds.
pub struct VulnerabilityView {
    pub cve: Seq<char>,
    pub description: Seq<char>,
    pub severity: VulnSeverity,
    pub cvss_score: Option<u16>,
    pub published: Option<Seq<char>>,
    pub references: Seq<Seq<char>>,
}

impl DeepView for Vulnerability {
    type V = VulnerabilityView;

    open spec fn deep_view(&self) -> VulnerabilityView {
        VulnerabilityView {
            cve: self.cve@,
            description: self.description@,
            severity: self.severity,
            cvss_score: self.cvss_score,
            published: self.published.deep_view(),
            references: self.references.deep_view(),
        }
    }
}

impl Clone for Vulnerability {
    fn clone(&self) -> (r: Self)
        ensures
            r.deep_view() == self.deep_view(),
    {
        let published = match &self.published {
            Some(p) => Some(p.clone()),
            None => None,
        };
        let references = self.references.clone();
        assert(references.deep_view() =~= self.references.deep_view());
        Vulnerability {
            cve: self.cve.clone(),
            description: self.description.clone(),
            severity: self.severity,
            cvss_score: self.cvss_score,
            published,
            references,
        }
    }
}

/// A banner pattern with the vulnerabilities of the services that match it.
///
/// The pattern's prefix selects how it is matched: `regex:` a regular
/// expression, `contains:` a substring, `version:` a version test; a pattern
/// without prefix is a substring regardless of case.
#[derive(Debug)]
pub struct ServicePattern {
    pub pattern: String,
    pub service_type: String,
    pub vulnerabilities: Vec<Vulnerability>,
}

/// What a `ServicePattern` holds.
pub struct ServicePatternView {
    pub pattern: Seq<char>,
    pub service_type: Seq<char>,
    pub vulnerabilities: Seq<VulnerabilityView>,
}

impl DeepView for ServicePattern {
    type V = ServicePatternView;

    open spec fn deep_view(&self) -> ServicePatternView {
        ServicePatternView {
            pattern: self.pattern@,
            service_type: self.service_type@,
            vulnerabilities: self.vulnerabilities.deep_view(),
        }
    }
}

/// Clones every vulnerability of `list`.
pub fn clone_vulnerabilities(list: &Vec<Vulnerability>) -> (r: Vec<Vulnerability>)
    ensures
        r.deep_view() == list.deep_view(),
{
    let mut out: Vec<Vulnerability> = Vec::new();
    let mut i: usize = 0;
    while i < list.len()
        invariant
            i <= list.len(),
            out.deep_view() == list.deep_view().take(i as int),
        decreases list.len() - i,
    {
        let ghost before = out.deep_view();
        let v = list[i].clone();
        out.push(v);
        assert(out.deep_view() =~= before.push(v.deep_view()));
        assert(list.deep_view().take(i as int).push(list.deep_view()[i as int])
            =~= list.deep_view().take(i + 1));
        i += 1;
    }
    assert(list.deep_view().take(list.len() as int) =~= list.deep_view());
    out
}

impl Clone for ServicePattern {
    fn clone(&self) -> (r: Self)
        ensures
            r.deep_view() == self.deep_view(),
    {
        ServicePattern {
            pattern: self.pattern.clone(),
            service_type: self.service_type.clone(),
            vulnerabilities: clone_vulnerabilities(&self.vulnerabilities),
        }
    }
}

/// A versioned list of service patterns.
#[derive(Debug)]
pub struct VulnDatabase {
    pub version: String,
    pub last_updated: String,
    pub patterns: Vec<ServicePattern>,
}

/// What a `VulnDatabase` holds.
pub struct VulnDatabaseView {
    pub version: Seq<char>,
    pub last_updated: Seq<char>,
    pub patterns: Seq<ServicePatternView>,
}

impl DeepView for VulnDatabase {
    type V = VulnDatabaseView;

    open spec fn deep_view(&self) -> VulnDatabaseView {
        VulnDatabaseView {
            version: self.version@,
            last_updated: self.last_updated@,
            patterns: self.patterns.deep_view(),
        }
    }
}

/// The vulnerabilities of `s` with the given severity, in their order in `s`.
pub open spec fn with_severity(s: Seq<VulnerabilityView>, severity: VulnSeverity) -> Seq<
    VulnerabilityView,
>
    decreases s.len(),
{
    if s.len() == 0 {
        s
    } else if s.last().severity == severity {
        with_severity(s.drop_last(), severity).push(s.last())
    } else {
        with_severity(s.drop_last(), severity)
    }
}

/// `s` ordered by severity rank, vulnerabilities of one severity in the order
/// they have in `s`.
pub open spec fn by_severity(s: Seq<VulnerabilityView>) -> Seq<VulnerabilityView> {
    with_severity(s, VulnSeverity::Critical) + with_severity(s, VulnSeverity::High)
        + with_severity(s, VulnSeverity::Medium) + with_severity(s, VulnSeverity::Low)
        + with_severity(s, VulnSeverity::Info)
}

/// Whether the severity ranks of `s` never decrease.
pub open spec fn severity_ordered(s: Seq<VulnerabilityView>) -> bool {
    forall|i: int, j: int| 0 <= i <= j < s.len() ==> s[i].severity.rank() <= s[j].severity.rank()
}

/// Every vulnerability selected by severity has that severity and comes from `s`.
pub proof fn lemma_with_severity(s: Seq<VulnerabilityView>, severity: VulnSeverity)
    ensures
        with_severity(s, severity).len() <= s.len(),
        forall|i: int|
            0 <= i < with_severity(s, severity).len() ==> (#[trigger] with_severity(
                s,
                severity,
            )[i]).severity == severity && s.contains(with_severity(s, severity)[i]),
    decreases s.len(),
{
    if s.len() > 0 {
        lemma_with_severity(s.drop_last(), severity);
        let w = with_severity(s, severity);
        assert forall|i: int| 0 <= i < w.len() implies (#[trigger] w[i]).severity == severity
            && s.contains(w[i]) by {
            if s.last().severity == severity && i == w.len() - 1 {
                assert(s[s.len() - 1] == w[i]);
            } else {
                let x = with_severity(s.drop_last(), severity)[i];
                assert(s.drop_last().contains(x));
                let j = choose|j: int| 0 <= j < s.drop_last().len() && s.drop_last()[j] == x;
                assert(s[j] == x);
            }
        }
    }
}

/// Ordering by severity keeps every vulnerability once and puts the ranks in
/// ascending order.
pub proof fn lemma_by_severity_ordered(s: Seq<VulnerabilityView>)
    ensures
        severity_ordered(by_severity(s)),
        by_severity(s).len() == s.len(),
{
    lemma_with_severity(s, VulnSeverity::Critical);
    lemma_with_severity(s, VulnSeverity::High);
    lemma_with_severity(s, VulnSeverity::Medium);
    lemma_with_severity(s, VulnSeverity::Low);
    lemma_with_severity(s, VulnSeverity::Info);
    lemma_severity_partition(s);
}

/// Every vulnerability is among those selected by its severity.
pub proof fn lemma_with_severity_holds(s: Seq<VulnerabilityView>, i: int)
    requires
        0 <= i < s.len(),
    ensures
        with_severity(s, s[i].severity).contains(s[i]),
    decreases s.len(),
{
    let w = with_severity(s, s[i].severity);
    if i == s.len() - 1 {
        assert(w[w.len() - 1] == s[i]);
    } else {
        lemma_with_severity_holds(s.drop_last(), i);
        let inner = with_severity(s.drop_last(), s[i].severity);
        assert(s.drop_last()[i] == s[i]);
        let k = choose|k: int| 0 <= k < inner.len() && inner[k] == s[i];
        assert(w[k] == s[i]);
    }
}

/// Ordering by severity neither adds nor loses a vulnerability.
pub proof fn lemma_by_severity_keeps(s: Seq<VulnerabilityView>, v: VulnerabilityView)
    ensures
        by_severity(s).contains(v) <==> s.contains(v),
{
    let c = with_severity(s, VulnSeverity::Critical);
    let h = with_severity(s, VulnSeverity::High);
    let m = with_severity(s, VulnSeverity::Medium);
    let l = with_severity(s, VulnSeverity::Low);
    let n = with_severity(s, VulnSeverity::Info);
    let out = by_severity(s);
    lemma_with_severity(s, VulnSeverity::Critical);
    lemma_with_severity(s, VulnSeverity::High);
    lemma_with_severity(s, VulnSeverity::Medium);
    lemma_with_severity(s, VulnSeverity::Low);
    lemma_with_severity(s, VulnSeverity::Info);
    if out.contains(v) {
        let k = choose|k: int| 0 <= k < out.len() && out[k] == v;
        if k < c.len() {
            assert(out[k] == c[k]);
        } else if k < c.len() + h.len() {
            assert(out[k] == h[k - c.len()]);
        } else if k < c.len() + h.len() + m.len() {
            assert(out[k] == m[k - c.len() - h.len()]);
        } else if k < c.len() + h.len() + m.len() + l.len() {
            assert(out[k] == l[k - c.len() - h.len() - m.len()]);
        } else {
            assert(out[k] == n[k - c.len() - h.len() - m.len() - l.len()]);
        }
    }
    if s.contains(v) {
        let i = choose|i: int| 0 <= i < s.len() && s[i] == v;
        lemma_with_severity_holds(s, i);
        let w = with_severity(s, v.severity);
        let k = choose|k: int| 0 <= k < w.len() && w[k] == v;
        match v.severity {
            VulnSeverity::Critical => {
                assert(out[k] == v);
            },
            VulnSeverity::High => {
                assert(out[c.len() + k] == v);
            },
            VulnSeverity::Medium => {
                assert(out[c.len() + h.len() + k] == v);
            },
            VulnSeverity::Low => {
                assert(out[c.len() + h.len() + m.len() + k] == v);
            },
            VulnSeverity::Info => {
                assert(out[c.len() + h.len() + m.len() + l.len() + k] == v);
            },
        }
    }
}

/// The five selections by severity have as many vulnerabilities as `s`.
pub proof fn lemma_severity_partition(s: Seq<VulnerabilityView>)
    ensures
        with_severity(s, VulnSeverity::Critical).len() + with_severity(s, VulnSeverity::High).len()
            + with_severity(s, VulnSeverity::Medium).len() + with_severity(
            s,
            VulnSeverity::Low,
        ).len() + with_severity(s, VulnSeverity::Info).len() == s.len(),
    decreases s.len(),
{
    if s.len() > 0 {
        lemma_severity_partition(s.drop_last());
    }
}

/// The vulnerabilities of `list` with the given severity, cloned onto `out`.
fn push_with_severity(
    out: &mut Vec<Vulnerability>,
    list: &Vec<Vulnerability>,
    severity: VulnSeverity,
)
    ensures
        final(out).deep_view() == old(out).deep_view() + with_severity(list.deep_view(), severity),
{
    let ghost start = out.deep_view();
    let mut i: usize = 0;
    assert(list.deep_view().take(0) =~= Seq::<VulnerabilityView>::empty());
    assert(out.deep_view() =~= start + with_severity(list.deep_view().take(0), severity));
    while i < list.len()
        invariant
            i <= list.len(),
            start == old(out).deep_view(),
            out.deep_view() == start + with_severity(list.deep_view().take(i as int), severity),
        decreases list.len() - i,
    {
        let ghost before = out.deep_view();
        assert(list.deep_view().take(i + 1).drop_last() =~= list.deep_view().take(i as int));
        assert(list.deep_view().take(i + 1).last() == list@[i as int].deep_view());
        if list[i].severity == severity {
            let v = list[i].clone();
            out.push(v);
            assert(out.deep_view() =~= before.push(v.deep_view()));
            assert(out.deep_view() =~= start + with_severity(
                list.deep_view().take(i + 1),
                severity,
            ));
        }
        i += 1;
    }
    assert(list.deep_view().take(list.len() as int) =~= list.deep_view());
}

/// A copy of `list` ordered by severity rank, vulnerabilities of one severity
/// in the order they have in `list`.
pub fn sort_by_severity(list: &Vec<Vulnerability>) -> (r: Vec<Vulnerability>)
    ensures
        r.deep_view() == by_severity(list.deep_view()),
        severity_ordered(r.deep_view()),
        r.len() == list.len(),
{
    let mut out: Vec<Vulnerability> = Vec::new();
    assert(out.deep_view() =~= Seq::<VulnerabilityView>::empty());
    push_with_severity(&mut out, list, VulnSeverity::Critical);
    push_with_severity(&mut out, list, VulnSeverity::High);
    push_with_severity(&mut out, list, VulnSeverity::Medium);
    push_with_severity(&mut out, list, VulnSeverity::Low);
    push_with_severity(&mut out, list, VulnSeverity::Info);
    proof {
        assert(out.deep_view() =~= by_severity(list.deep_view()));
        lemma_by_severity_ordered(list.deep_view());
    }
    out
}

/// `regex::Regex`, a compiled regular expression; a value of it is known only
/// by what `regex_source` names.
#[verifier::external_type_specification]
#[verifier::external_body]
pub struct ExRegex(regex::Regex);

/// `regex::Error`, the reason why an expression was refused; nothing is read
/// of it.
#[verifier::external_type_specification]
#[verifier::external_body]
pub struct ExRegexError(regex::Error);

/// Whether `regex::Regex::new` accepts the expression.
pub uninterp spec fn regex_compiles(expr: Seq<char>) -> bool;

/// The expression that a `regex::Regex` was compiled from, which
/// `regex::Regex::as_str` returns.
pub uninterp spec fn regex_source(re: regex::Regex) -> Seq<char>;

/// Whether the compiled expression matches somewhere in the haystack.
pub uninterp spec fn regex_is_match(expr: Seq<char>, haystack: Seq<char>) -> bool;

/// The leftmost match of the compiled expression in the haystack, if any.
pub uninterp spec fn regex_find(expr: Seq<char>, haystack: Seq<char>) -> Option<Seq<char>>;

/// `regex::Regex::new`: compiles an expression, or refuses it. The contract
/// names the verdict, and states that the compiled value remembers the
/// expression, as `Regex::as_str` shows.
#[verifier::external_body]
fn regex_new(expr: &str) -> (r: Result<regex::Regex, regex::Error>)
    ensures
        r.is_ok() == regex_compiles(expr@),
        r matches Ok(re) ==> regex_source(re) == expr@,
{
    regex::Regex::new(expr)
}

/// `regex::Regex::is_match`: whether there is a match anywhere in the
/// haystack. The contract only names the result.
#[verifier::external_body]
fn regex_matches(re: &regex::Regex, haystack: &str) -> (r: bool)
    ensures
        r == regex_is_match(regex_source(*re), haystack@),
{
    re.is_match(haystack)
}

/// `regex::Regex::find`: the text of the first match in the haystack. The
/// contract only names the result.
#[verifier::external_body]
fn regex_first_match(re: &regex::Regex, haystack: &str) -> (r: Option<String>)
    ensures
        r.deep_view() == regex_find(regex_source(*re), haystack@),
{
    re.find(haystack).map(|m| m.as_str().to_string())
}

/// The expression that finds a version number: two or three runs of digits
/// joined by dots.
pub const VERSION_EXPRESSION: &'static str = "(\\d+\\.\\d+(?:\\.\\d+)?)";

/// The expression by which versions are found: `VERSION_EXPRESSION`, or the
/// empty expression should that one be refused, or none if both are.
pub open spec fn version_source() -> Option<Seq<char>> {
    if regex_compiles(VERSION_EXPRESSION@) {
        Some(VERSION_EXPRESSION@)
    } else if regex_compiles(""@) {
        Some(""@)
    } else {
        None
    }
}

/// Whether the first version number in `banner` occurs in `versions`.
pub open spec fn version_matches(banner: Seq<char>, versions: Seq<char>) -> bool {
    match version_source() {
        None => false,
        Some(source) => match regex_find(source, banner) {
            None => false,
            Some(version) => contains(versions, version),
        },
    }
}

/// Whether a pattern matches a normalized banner.
pub open spec fn pattern_matches(pattern: Seq<char>, banner: Seq<char>) -> bool {
    match strip_prefix(pattern, "regex:"@) {
        Some(expr) => regex_compiles(expr) && regex_is_match(expr, banner),
        None => match strip_prefix(pattern, "contains:"@) {
            Some(part) => contains(banner, part),
            None => match strip_prefix(pattern, "version:"@) {
                Some(versions) => version_matches(banner, versions),
                None => contains(banner, lowercase(pattern)),
            },
        },
    }
}

/// A banner as the patterns see it: trimmed, in lower case.
pub open spec fn normalized(banner: Seq<char>) -> Seq<char> {
    lowercase(trim(banner))
}

/// For every pattern, whether it matches the normalized banner.
pub open spec fn matches(patterns: Seq<ServicePatternView>, banner: Seq<char>) -> Seq<bool> {
    Seq::new(patterns.len(), |i: int| pattern_matches(patterns[i].pattern, banner))
}

/// The vulnerabilities of the patterns marked in `matched`, in pattern order.
pub open spec fn gathered(patterns: Seq<ServicePatternView>, matched: Seq<bool>) -> Seq<
    VulnerabilityView,
>
    decreases patterns.len(),
{
    if patterns.len() == 0 {
        Seq::empty()
    } else {
        let n = patterns.len() - 1;
        gathered(patterns.drop_last(), matched) + if n < matched.len() && matched[n] {
            patterns.last().vulnerabilities
        } else {
            Seq::empty()
        }
    }
}

/// The vulnerabilities that a banner is correlated with: those of every
/// pattern that matches the normalized banner, ordered by severity rank and
/// else in pattern order. An empty banner is correlated with none.
pub open spec fn correlate(patterns: Seq<ServicePatternView>, banner: Seq<char>) -> Seq<
    VulnerabilityView,
> {
    if banner.len() == 0 {
        Seq::empty()
    } else {
        by_severity(gathered(patterns, matches(patterns, normalized(banner))))
    }
}

/// The vulnerabilities that a cache keyed by pattern holds for `pattern`: those
/// of the last pattern that is written so.
pub open spec fn cached(patterns: Seq<ServicePatternView>, pattern: Seq<char>) -> Option<
    Seq<VulnerabilityView>,
>
    decreases patterns.len(),
{
    if patterns.len() == 0 {
        None
    } else if patterns.last().pattern == pattern {
        Some(patterns.last().vulnerabilities)
    } else {
        cached(patterns.drop_last(), pattern)
    }
}

/// Correlation depends on the patterns and the banner alone: the same inputs
/// give the same list, in the same order.
pub proof fn lemma_correlation_repeats(
    patterns: Seq<ServicePatternView>,
    first: Seq<char>,
    second: Seq<char>,
)
    requires
        first == second,
    ensures
        correlate(patterns, first) == correlate(patterns, second),
{
}

/// Whatever the banner, the correlated vulnerabilities come in ascending
/// severity rank.
pub proof fn lemma_correlation_ordered(patterns: Seq<ServicePatternView>, banner: Seq<char>)
    ensures
        severity_ordered(correlate(patterns, banner)),
{
    if banner.len() > 0 {
        lemma_by_severity_ordered(gathered(patterns, matches(patterns, normalized(banner))));
    }
}

/// Summary figures of a database. Counts that do not fit a `usize` stay at
/// `usize::MAX`. `severity_counts` lists the severities that occur, by rank,
/// each with its name and count.
#[derive(Debug)]
pub struct VulnDbStats {
    pub total_patterns: usize,
    pub total_vulnerabilities: usize,
    pub severity_counts: Vec<(String, usize)>,
    pub version: String,
    pub last_updated: String,
}

/// Every vulnerability of every pattern, in order.
pub open spec fn all_vulnerabilities(patterns: Seq<ServicePatternView>) -> Seq<VulnerabilityView>
    decreases patterns.len(),
{
    if patterns.len() == 0 {
        Seq::empty()
    } else {
        all_vulnerabilities(patterns.drop_last()) + patterns.last().vulnerabilities
    }
}

/// `n`, or `usize::MAX` if `n` is larger.
pub open spec fn saturated(n: nat) -> usize {
    if n <= usize::MAX {
        n as usize
    } else {
        usize::MAX
    }
}

/// The severities that occur in `all` from rank `from` on, each with its name
/// and saturated count.
pub open spec fn severity_counts(all: Seq<VulnerabilityView>, from: int) -> Seq<
    (Seq<char>, usize),
>
    decreases 5 - from,
{
    if from < 0 || from >= 5 {
        Seq::empty()
    } else {
        let severity = VulnSeverity::of_rank(from);
        let count = with_severity(all, severity).len();
        if count > 0 {
            seq![(severity.name(), saturated(count))] + severity_counts(all, from + 1)
        } else {
            severity_counts(all, from + 1)
        }
    }
}

/// Whether `form` is what compiling a pattern leaves: the compiled expression
/// of a `regex:` pattern that compiles, and nothing for any other pattern.
pub open spec fn is_compiled_form(form: Option<regex::Regex>, pattern: Seq<char>) -> bool {
    match strip_prefix(pattern, "regex:"@) {
        Some(expr) => match form {
            Some(re) => regex_compiles(expr) && regex_source(re) == expr,
            None => !regex_compiles(expr),
        },
        None => form.is_none(),
    }
}

/// Whether `form` is the compiled expression by which versions are found.
pub open spec fn is_version_form(form: Option<regex::Regex>) -> bool {
    match form {
        Some(re) => version_source() == Some(regex_source(re)),
        None => version_source().is_none(),
    }
}

/// Matches banners against a vulnerability database. The expressions of the
/// database are compiled once, when the checker is made.
#[derive(Debug)]
pub struct VulnChecker {
    database: VulnDatabase,
    compiled: Vec<Option<regex::Regex>>,
    version: Option<regex::Regex>,
}

/// The expression by which versions are found, compiled.
fn compile_version() -> (r: Option<regex::Regex>)
    ensures
        is_version_form(r),
{
    match regex_new(VERSION_EXPRESSION) {
        Ok(re) => Some(re),
        Err(_) => match regex_new("") {
            Ok(re) => Some(re),
            Err(_) => None,
        },
    }
}

/// The compiled form of a pattern.
fn compile_pattern(pattern: &str) -> (r: Option<regex::Regex>)
    ensures
        is_compiled_form(r, pattern@),
{
    let p = to_chars(pattern);
    match strip_prefix_chars(&p, "regex:") {
        Some(expr) => {
            let text = from_chars(&expr);
            match regex_new(text.as_str()) {
                Ok(re) => Some(re),
                Err(_) => None,
            }
        },
        None => None,
    }
}

impl VulnChecker {
    /// Every pattern has its compiled form.
    #[verifier::type_invariant]
    spec fn compiled_forms_fit(&self) -> bool {
        &&& self.compiled.len() == self.database.patterns.len()
        &&& forall|i: int|
            0 <= i < self.compiled.len() ==> is_compiled_form(
                #[trigger] self.compiled@[i],
                self.database.patterns@[i].pattern@,
            )
        &&& is_version_form(self.version)
    }

    /// A checker for the given database.
    pub fn from_database(database: VulnDatabase) -> (r: Self)
        ensures
            r.database() == database,
    {
        let mut compiled: Vec<Option<regex::Regex>> = Vec::new();
        let mut i: usize = 0;
        while i < database.patterns.len()
            invariant
                i <= database.patterns.len(),
                compiled.len() == i,
                forall|k: int|
                    0 <= k < i ==> is_compiled_form(
                        #[trigger] compiled@[k],
                        database.patterns@[k].pattern@,
                    ),
            decreases database.patterns.len() - i,
        {
            compiled.push(compile_pattern(database.patterns[i].pattern.as_str()));
            i += 1;
        }
        VulnChecker { database, compiled, version: compile_version() }
    }

    /// The database of the checker.
    pub closed spec fn database(&self) -> VulnDatabase {
        self.database
    }

    /// The database of the checker.
    pub fn get_database(&self) -> (r: &VulnDatabase)
        ensures
            *r == self.database(),
    {
        &self.database
    }

    /// The patterns of the database.
    pub open spec fn patterns(&self) -> Seq<ServicePatternView> {
        self.database().patterns.deep_view()
    }

    /// The vulnerabilities recorded for exactly this pattern, as a cache keyed
    /// by pattern would hold them.
    pub fn cached_vulnerabilities(&self, pattern: &str) -> (r: Option<&Vec<Vulnerability>>)
        ensures
            r.deep_view() == cached(self.patterns(), pattern@),
    {
        let wanted = to_chars(pattern);
        let mut i: usize = self.database.patterns.len();
        assert(self.patterns().take(i as int) =~= self.patterns());
        while i > 0
            invariant
                i <= self.database.patterns.len(),
                wanted@ == pattern@,
                cached(self.patterns(), pattern@) == cached(
                    self.patterns().take(i as int),
                    pattern@,
                ),
            decreases i,
        {
            let entry = &self.database.patterns[i - 1];
            let written = to_chars(entry.pattern.as_str());
            assert(self.patterns().take(i as int).last() == entry.deep_view());
            assert(self.patterns().take(i as int).drop_last() =~= self.patterns().take(i - 1));
            if same_chars(&written, &wanted) {
                return Some(&entry.vulnerabilities);
            }
            i -= 1;
        }
        None
    }

    fn matches_version(banner: &str, versions: &Vec<char>) -> (r: bool)
        ensures
            r == version_matches(banner@, versions@),
    {
        let re = match regex_new(VERSION_EXPRESSION) {
            Ok(re) => re,
            Err(_) => match regex_new("") {
                Ok(re) => re,
                Err(_) => {
                    return false;
                },
            },
        };
        match regex_first_match(&re, banner) {
            None => false,
            Some(version) => {
                let v = to_chars(version.as_str());
                contains_chars(versions, &v)
            },
        }
    }

    /// Whether `pattern` matches the normalized banner `banner`.
    pub fn matches_pattern(banner: &str, pattern: &str) -> (r: bool)
        ensures
            r == pattern_matches(pattern@, banner@),
    {
        let p = to_chars(pattern);
        let b = to_chars(banner);
        if let Some(expr) = strip_prefix_chars(&p, "regex:") {
            let text = from_chars(&expr);
            match regex_new(text.as_str()) {
                Ok(re) => regex_matches(&re, banner),
                Err(_) => false,
            }
        } else if let Some(part) = strip_prefix_chars(&p, "contains:") {
            contains_chars(&b, &part)
        } else if let Some(versions) = strip_prefix_chars(&p, "version:") {
            Self::matches_version(banner, &versions)
        } else {
            let lower = to_lowercase(pattern);
            let l = to_chars(lower.as_str());
            contains_chars(&b, &l)
        }
    }

    /// Whether the pattern at `index` matches the normalized banner `banner`,
    /// by the compiled forms.
    fn matches_compiled(&self, index: usize, banner: &str) -> (r: bool)
        requires
            index < self.database().patterns.len(),
        ensures
            r == pattern_matches(self.database().patterns@[index as int].pattern@, banner@),
    {
        proof {
            use_type_invariant(self);
        }
        let p = to_chars(self.database.patterns[index].pattern.as_str());
        let b = to_chars(banner);
        assert(is_compiled_form(
            self.compiled@[index as int],
            self.database.patterns@[index as int].pattern@,
        ));
        if let Some(expr) = strip_prefix_chars(&p, "regex:") {
            match &self.compiled[index] {
                Some(re) => regex_matches(re, banner),
                None => false,
            }
        } else if let Some(part) = strip_prefix_chars(&p, "contains:") {
            contains_chars(&b, &part)
        } else if let Some(versions) = strip_prefix_chars(&p, "version:") {
            match &self.version {
                Some(re) => match regex_first_match(re, banner) {
                    None => false,
                    Some(version) => {
                        let v = to_chars(version.as_str());
                        contains_chars(&versions, &v)
                    },
                },
                None => false,
            }
        } else {
            let lower = to_lowercase(self.database.patterns[index].pattern.as_str());
            let l = to_chars(lower.as_str());
            contains_chars(&b, &l)
        }
    }

    /// The vulnerabilities of the patterns marked in `matched`, ordered by
    /// severity rank and else in pattern order. A pattern without a mark
    /// counts as unmatched.
    pub fn collect_matches(&self, matched: &Vec<bool>) -> (r: Vec<Vulnerability>)
        ensures
            r.deep_view() == by_severity(gathered(self.patterns(), matched@)),
            severity_ordered(r.deep_view()),
    {
        let mut all: Vec<Vulnerability> = Vec::new();
        let mut i: usize = 0;
        assert(self.patterns().take(0) =~= Seq::<ServicePatternView>::empty());
        assert(all.deep_view() =~= Seq::<VulnerabilityView>::empty());
        while i < self.database.patterns.len()
            invariant
                i <= self.database.patterns.len(),
                all.deep_view() == gathered(self.patterns().take(i as int), matched@),
            decreases self.database.patterns.len() - i,
        {
            let ghost before = all.deep_view();
            assert(self.patterns().take(i + 1).drop_last() =~= self.patterns().take(i as int));
            assert(self.patterns().take(i + 1).last()
                == self.database.patterns@[i as int].deep_view());
            if i < matched.len() && matched[i] {
                let mut found = clone_vulnerabilities(&self.database.patterns[i].vulnerabilities);
                let ghost added = found.deep_view();
                all.append(&mut found);
                assert(all.deep_view() =~= before + added);
            } else {
                assert(before + Seq::<VulnerabilityView>::empty() =~= before);
            }
            i += 1;
        }
        assert(self.patterns().take(self.database.patterns.len() as int) =~= self.patterns());
        sort_by_severity(&all)
    }

    /// The known vulnerabilities of the service that sent `banner`.
    pub fn check_banner(&self, banner: &str) -> (r: Vec<Vulnerability>)
        ensures
            r.deep_view() == correlate(self.patterns(), banner@),
            severity_ordered(r.deep_view()),
    {
        let chars = to_chars(banner);
        if chars.len() == 0 {
            let none: Vec<Vulnerability> = Vec::new();
            assert(none.deep_view() =~= Seq::<VulnerabilityView>::empty());
            return none;
        }
        let trimmed = from_chars(&trim_chars(&chars));
        let text = to_lowercase(trimmed.as_str());
        let mut matched: Vec<bool> = Vec::new();
        let mut i: usize = 0;
        while i < self.database.patterns.len()
            invariant
                i <= self.database.patterns.len(),
                text@ == normalized(banner@),
                matched@ == matches(self.patterns(), text@).take(i as int),
            decreases self.database.patterns.len() - i,
        {
            let m = self.matches_compiled(i, text.as_str());
            matched.push(m);
            assert(self.patterns()[i as int] == self.database.patterns@[i as int].deep_view());
            assert(matched@ =~= matches(self.patterns(), text@).take(i + 1));
            i += 1;
        }
        assert(matched@ =~= matches(self.patterns(), text@));
        self.collect_matches(&matched)
    }

    /// Summary figures of the database.
    #[verifier::rlimit(50)]
    pub fn get_stats(&self) -> (r: VulnDbStats)
        ensures
            r.total_patterns == self.patterns().len(),
            r.total_vulnerabilities == saturated(all_vulnerabilities(self.patterns()).len()),
            r.severity_counts.deep_view() == severity_counts(
                all_vulnerabilities(self.patterns()),
                0,
            ),
            r.version@ == self.database().version@,
            r.last_updated@ == self.database().last_updated@,
    {
        let mut counts: [usize; 5] = [0, 0, 0, 0, 0];
        let mut total: usize = 0;
        let mut i: usize = 0;
        let ghost pats = self.patterns();
        assert(pats.take(0) =~= Seq::<ServicePatternView>::empty());
        while i < self.database.patterns.len()
            invariant
                i <= self.database.patterns.len(),
                pats == self.patterns(),
                total == saturated(all_vulnerabilities(pats.take(i as int)).len()),
                forall|k: int|
                    0 <= k < 5 ==> #[trigger] counts@[k] == saturated(
                        with_severity(
                            all_vulnerabilities(pats.take(i as int)),
                            VulnSeverity::of_rank(k),
                        ).len(),
                    ),
            decreases self.database.patterns.len() - i,
        {
            let list = &self.database.patterns[i].vulnerabilities;
            let ghost done = all_vulnerabilities(pats.take(i as int));
            assert(pats.take(i + 1).drop_last() =~= pats.take(i as int));
            assert(pats.take(i + 1).last() == self.database.patterns@[i as int].deep_view());
            assert(all_vulnerabilities(pats.take(i + 1)) == done + list.deep_view());
            total = total.saturating_add(list.len());
            let mut j: usize = 0;
            assert(list.deep_view().take(0) =~= Seq::<VulnerabilityView>::empty());
            assert(done + list.deep_view().take(0) =~= done);
            while j < list.len()
                invariant
                    j <= list.len(),
                    forall|k: int|
                        0 <= k < 5 ==> #[trigger] counts@[k] == saturated(
                            with_severity(
                                done + list.deep_view().take(j as int),
                                VulnSeverity::of_rank(k),
                            ).len(),
                        ),
                decreases list.len() - j,
            {
                let rank = list[j].severity.severity_rank() as usize;
                let ghost so_far = done + list.deep_view().take(j as int);
                let ghost next = done + list.deep_view().take(j + 1);
                assert(next.drop_last() =~= so_far);
                assert(next.last() == list@[j as int].deep_view());
                assert(VulnSeverity::of_rank(rank as int) == list@[j as int].severity);
                let bumped = counts[rank].saturating_add(1);
                counts[rank] = bumped;
                assert forall|k: int| 0 <= k < 5 implies #[trigger] counts@[k] == saturated(
                    with_severity(next, VulnSeverity::of_rank(k)).len(),
                ) by {
                    if k != rank {
                        assert(VulnSeverity::of_rank(k) != list@[j as int].severity);
                    }
                }
                j += 1;
            }
            assert(list.deep_view().take(list.len() as int) =~= list.deep_view());
            i += 1;
        }
        assert(pats.take(self.database.patterns.len() as int) =~= pats);
        let ghost all = all_vulnerabilities(pats);
        let mut severity_list: Vec<(String, usize)> = Vec::new();
        let mut k: usize = 5;
        assert(severity_list.deep_view() =~= severity_counts(all, 5));
        while k > 0
            invariant
                k <= 5,
                severity_list.deep_view() == severity_counts(all, k as int),
                forall|n: int|
                    0 <= n < 5 ==> #[trigger] counts@[n] == saturated(
                        with_severity(all, VulnSeverity::of_rank(n)).len(),
                    ),
            decreases k,
        {
            k -= 1;
            let severity = if k == 0 {
                VulnSeverity::Critical
            } else if k == 1 {
                VulnSeverity::High
            } else if k == 2 {
                VulnSeverity::Medium
            } else if k == 3 {
                VulnSeverity::Low
            } else {
                VulnSeverity::Info
            };
            assert(severity == VulnSeverity::of_rank(k as int));
            if counts[k] > 0 {
                let ghost before = severity_list.deep_view();
                let name = severity.to_string().to_string();
                severity_list.insert(0, (name, counts[k]));
                assert(severity_list.deep_view() =~= seq![(severity.name(), counts@[k as int])]
                    + before);
            }
        }
        VulnDbStats {
            total_patterns: self.database.patterns.len(),
            total_vulnerabilities: total,
            severity_counts: severity_list,
            version: self.database.version.clone(),
            last_updated: self.database.last_updated.clone(),
        }
    }
}

} // verus!
