//! The vault health report as `vault check` prints it.

use vstd::prelude::*;
use crate::text::push_str;

verus! {

/// How serious a finding is.
#[derive(Debug, Clone, Copy, PartialEq, Eq, Structural)]
pub enum Severity {
    /// Nothing wrong.
    Info,
    /// Worth attention.
    Warning,
    /// Something is broken.
    Error,
}

/// One finding of a health check.
#[derive(Debug, Clone, PartialEq, Eq)]
pub struct CheckFinding {
    /// How serious it is.
    pub severity: Severity,
    /// The check that found it.
    pub check_name: String,
    /// What was found.
    pub message: String,
    /// Whether it can be repaired automatically.
    pub auto_fixable: bool,
}

/// A health report: what was checked, the findings and the overall status
/// (as text).
#[derive(Debug, Clone, PartialEq, Eq)]
pub struct HealthReport {
    /// What was checked.
    pub component: String,
    /// The findings, in order.
    pub results: Vec<CheckFinding>,
    /// The overall status.
    pub status: String,
}

/// The tag that marks a finding's severity.
pub open spec fn severity_tag_text(s: Severity) -> Seq<char> {
    match s {
        Severity::Info => "[OK]  "@,
        Severity::Warning => "[WARN]"@,
        Severity::Error => "[ERR] "@,
    }
}

/// The tag that marks a finding's severity.
pub fn severity_tag(s: Severity) -> (t: &'static str)
    ensures
        t@ == severity_tag_text(s),
{
    match s {
        Severity::Info => "[OK]  ",
        Severity::Warning => "[WARN]",
        Severity::Error => "[ERR] ",
    }
}

/// The lines that show one finding: the tagged finding, and a note when it
/// can be repaired automatically.
pub open spec fn finding_lines(f: CheckFinding) -> Seq<Seq<char>> {
    let main = "  "@ + severity_tag_text(f.severity) + " "@ + f.check_name@ + ": "@ + f.message@;
    if f.auto_fixable {
        seq![main, "         (auto-fixable)"@]
    } else {
        seq![main]
    }
}

/// The lines that show the findings, in order.
pub open spec fn findings_lines(fs: Seq<CheckFinding>) -> Seq<Seq<char>>
    decreases fs.len(),
{
    if fs.len() == 0 {
        seq![]
    } else {
        findings_lines(fs.drop_last()) + finding_lines(fs.last())
    }
}

/// The lines of a printed health report: a heading and a rule, the
/// findings, a blank line and the overall status.
pub open spec fn report_lines(r: HealthReport) -> Seq<Seq<char>> {
    seq!["Vault Health Report: "@ + r.component@, Seq::new(50, |i: int| '=')] + findings_lines(
        r.results@,
    ) + seq![Seq::<char>::empty(), "Result: "@ + r.status@]
}

/// The lines in which `vault check` prints a health report.
pub fn health_report_lines(report: &HealthReport) -> (lines: Vec<String>)
    ensures
        lines@.map_values(|l: String| l@) == report_lines(*report),
{
    let mut lines: Vec<String> = Vec::new();
    let mut head = String::from_str("Vault Health Report: ");
    push_str(&mut head, report.component.as_str());
    lines.push(head);
    let mut rule = String::new();
    let mut k: usize = 0;
    while k < 50
        invariant
            k <= 50,
            rule@ == Seq::new(k as nat, |i: int| '='),
        decreases 50 - k,
    {
        rule.push('=');
        assert(Seq::new((k + 1) as nat, |i: int| '=') =~= Seq::new(k as nat, |i: int| '=').push('='));
        k = k + 1;
    }
    lines.push(rule);
    let ghost start = lines@.map_values(|l: String| l@);
    assert(start =~= seq!["Vault Health Report: "@ + report.component@, Seq::new(50, |i: int| '=')]);
    let n = report.results.len();
    let mut i: usize = 0;
    assert(report.results@.take(0) =~= Seq::<CheckFinding>::empty());
    while i < n
        invariant
            i <= n == report.results@.len(),
            lines@.map_values(|l: String| l@) == start + findings_lines(
                report.results@.take(i as int),
            ),
        decreases n - i,
    {
        let f = &report.results[i];
        let ghost before = lines@.map_values(|l: String| l@);
        let mut line = String::from_str("  ");
        push_str(&mut line, severity_tag(f.severity));
        push_str(&mut line, " ");
        push_str(&mut line, f.check_name.as_str());
        push_str(&mut line, ": ");
        push_str(&mut line, f.message.as_str());
        lines.push(line);
        if f.auto_fixable {
            lines.push(String::from_str("         (auto-fixable)"));
        }
        proof {
            assert(report.results@.take(i + 1).drop_last() =~= report.results@.take(i as int));
            assert(lines@.map_values(|l: String| l@) =~= before + finding_lines(*f));
            assert(start + findings_lines(report.results@.take(i + 1)) =~= start + findings_lines(
                report.results@.take(i as int),
            ) + finding_lines(*f));
        }
        i = i + 1;
    }
    assert(report.results@.take(n as int) =~= report.results@);
    let ghost body = lines@.map_values(|l: String| l@);
    lines.push(String::new());
    let mut last = String::from_str("Result: ");
    push_str(&mut last, report.status.as_str());
    lines.push(last);
    assert(lines@.map_values(|l: String| l@) =~= report_lines(*report));
    lines
}

/// Each severity is shown under its own tag: `[OK]` for information,
/// `[WARN]` for a warning and `[ERR]` for an error, all six characters wide,
/// so no finding appears under another severity's tag.
pub proof fn law_each_severity_has_its_own_tag(a: Severity, b: Severity)
    ensures
        severity_tag_text(Severity::Info) == seq!['[', 'O', 'K', ']', ' ', ' '],
        severity_tag_text(Severity::Warning) == seq!['[', 'W', 'A', 'R', 'N', ']'],
        severity_tag_text(Severity::Error) == seq!['[', 'E', 'R', 'R', ']', ' '],
        severity_tag_text(a).len() == 6,
        a != b ==> severity_tag_text(a) != severity_tag_text(b),
{
    reveal_strlit("[OK]  ");
    reveal_strlit("[WARN]");
    reveal_strlit("[ERR] ");
    assert(severity_tag_text(Severity::Info) =~= seq!['[', 'O', 'K', ']', ' ', ' ']);
    assert(severity_tag_text(Severity::Warning) =~= seq!['[', 'W', 'A', 'R', 'N', ']']);
    assert(severity_tag_text(Severity::Error) =~= seq!['[', 'E', 'R', 'R', ']', ' ']);
    if a != b {
        assert(severity_tag_text(a)[1] != severity_tag_text(b)[1]);
    }
}

/// A report with one finding that cannot be repaired automatically shows
/// it on its third line: two spaces, the finding's severity tag, a space,
/// the check's name, `: ` and the message.
pub proof fn law_finding_is_shown_under_its_tag(r: HealthReport)
    requires
        r.results@.len() == 1,
        !r.results@[0].auto_fixable,
    ensures
        report_lines(r).len() == 5,
        report_lines(r)[2] == seq![' ', ' '] + severity_tag_text(r.results@[0].severity) + seq![' ']
            + r.results@[0].check_name@ + seq![':', ' '] + r.results@[0].message@,
        report_lines(r)[2].subrange(2, 8) == severity_tag_text(r.results@[0].severity),
{
    let f = r.results@[0];
    reveal_strlit("  ");
    reveal_strlit(" ");
    reveal_strlit(": ");
    assert(r.results@.drop_last() =~= Seq::<CheckFinding>::empty());
    assert(findings_lines(r.results@.drop_last()) =~= Seq::<Seq<char>>::empty());
    assert(r.results@.last() == f);
    assert(finding_lines(f) == seq![
        "  "@ + severity_tag_text(f.severity) + " "@ + f.check_name@ + ": "@ + f.message@,
    ]);
    assert(findings_lines(r.results@) =~= seq![
        "  "@ + severity_tag_text(f.severity) + " "@ + f.check_name@ + ": "@ + f.message@,
    ]);
    law_each_severity_has_its_own_tag(f.severity, f.severity);
    let line = report_lines(r)[2];
    assert(line =~= seq![' ', ' '] + severity_tag_text(f.severity) + seq![' '] + f.check_name@
        + seq![':', ' '] + f.message@);
    assert(line.subrange(2, 8) =~= severity_tag_text(f.severity));
}

} // verus!
