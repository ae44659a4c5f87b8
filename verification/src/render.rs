//! Plain-text rendering of reports and catalogue entries, as the command
//! line prints them.

use vstd::prelude::*;

use crate::catalogue;
use crate::catalogue::RuleExplanation;
use crate::model;
use crate::model::{Evidence, EvidenceScope, EvidenceView, Finding, FindingView, Severity};
use crate::report;
use crate::report::AnalysisReport;
use crate::text::decimal;
use crate::text::decimal_string;

verus! {

/// The name a severity is shown with.
pub open spec fn severity_name(s: Severity) -> Seq<char> {
    match s {
        Severity::Info => "Info"@,
        Severity::Warning => "Warning"@,
        Severity::Violation => "Violation"@,
        Severity::Critical => "Critical"@,
    }
}

/// The name an evidence scope is shown with.
pub open spec fn scope_name(s: EvidenceScope) -> Seq<char> {
    match s {
        EvidenceScope::Global => "Global"@,
        EvidenceScope::Input => "Input"@,
        EvidenceScope::Output => "Output"@,
    }
}

/// `prefix` followed by the value, or nothing when there is no value.
pub open spec fn optional_part(prefix: Seq<char>, value: Option<Seq<char>>) -> Seq<char> {
    match value {
        Some(v) => prefix + v,
        None => seq![],
    }
}

/// The decimal text of an optional index.
pub open spec fn index_text(i: Option<usize>) -> Option<Seq<char>> {
    match i {
        Some(n) => Some(crate::text::decimal(n as nat)),
        None => None,
    }
}

/// The evidence line of a finding; empty when the evidence has no scope.
pub open spec fn evidence_line(e: EvidenceView) -> Seq<char> {
    match e.scope {
        None => seq![],
        Some(scope) => "evidence: "@ + scope_name(scope) + optional_part(
            " input #"@,
            index_text(e.input_index),
        ) + optional_part(" output #"@, index_text(e.output_index)) + optional_part(
            " field "@,
            e.field,
        ) + actual_part(e.actual) + "\n"@,
    }
}

/// The text block of one finding, starting with an empty line.
pub open spec fn finding_text(f: FindingView) -> Seq<char> {
    "\n"@ + model::code_text(f.code) + " ["@ + severity_name(f.severity) + "] "@ + f.title + "\n"@
        + f.explanation + "\n"@ + evidence_line(f.evidence) + "suggested action: "@
        + f.suggested_action + "\n"@
}

/// The text blocks of findings, in order.
pub open spec fn findings_text(fs: Seq<FindingView>) -> Seq<char>
    decreases fs.len(),
{
    if fs.len() == 0 {
        seq![]
    } else {
        findings_text(fs.drop_last()) + finding_text(fs.last())
    }
}

/// The header lines of a report.
pub open spec fn report_header(command: Seq<char>, s: report::FindingSummary) -> Seq<char> {
    "psbt-guard "@ + command + " report\n"@ + "summary: "@ + decimal(s.total as nat)
        + " finding(s): "@ + decimal(s.info as nat) + " info, "@ + decimal(s.warning as nat)
        + " warning, "@ + decimal(s.violation as nat) + " violation, "@ + decimal(
        s.critical as nat,
    ) + " critical\n"@ + "advisory: review guidance only, not a guarantee of safety\n"@
}

/// The full text of a report: the header, then `clean_message` when there
/// are no findings, or every finding's block otherwise.
pub open spec fn report_text_spec(
    command: Seq<char>,
    clean_message: Seq<char>,
    s: report::FindingSummary,
    fs: Seq<FindingView>,
) -> Seq<char> {
    report_header(command, s) + if fs.len() == 0 {
        clean_message + "\n"@
    } else {
        findings_text(fs)
    }
}

fn severity_str(s: Severity) -> (r: &'static str)
    ensures
        r@ == severity_name(s),
{
    match s {
        Severity::Info => "Info",
        Severity::Warning => "Warning",
        Severity::Violation => "Violation",
        Severity::Critical => "Critical",
    }
}

fn scope_str(s: EvidenceScope) -> (r: &'static str)
    ensures
        r@ == scope_name(s),
{
    match s {
        EvidenceScope::Global => "Global",
        EvidenceScope::Input => "Input",
        EvidenceScope::Output => "Output",
    }
}

/// Append `prefix` and the decimal index, when there is one.
fn push_index_part(out: &mut String, prefix: &str, i: Option<usize>)
    ensures
        final(out)@ == old(out)@ + optional_part(prefix@, index_text(i)),
{
    if let Some(n) = i {
        out.append(prefix);
        out.append(decimal_string(n as u128).as_str());
    } else {
        assert(old(out)@ + optional_part(prefix@, index_text(i)) =~= old(out)@);
    }
}

/// Append `prefix` and the text, when there is one.
fn push_text_part(out: &mut String, prefix: &str, t: &Option<String>)
    ensures
        final(out)@ == old(out)@ + optional_part(prefix@, model::opt_text(*t)),
{
    if let Some(v) = t {
        out.append(prefix);
        out.append(v.as_str());
    } else {
        assert(old(out)@ + optional_part(prefix@, model::opt_text(*t)) =~= old(out)@);
    }
}

/// The parenthesized detail of an evidence line, or nothing.
pub open spec fn actual_part(actual: Option<Seq<char>>) -> Seq<char> {
    match actual {
        Some(a) => " ("@ + a + ")"@,
        None => seq![],
    }
}

/// Append the evidence line of `e`.
fn push_evidence_line(out: &mut String, e: &Evidence)
    ensures
        final(out)@ == old(out)@ + evidence_line(e@),
{
    let ghost start = out@;
    if let Some(scope) = e.scope {
        out.append("evidence: ");
        out.append(scope_str(scope));
        push_index_part(out, " input #", e.input_index);
        push_index_part(out, " output #", e.output_index);
        push_text_part(out, " field ", &e.field);
        let ghost before_actual = out@;
        if let Some(actual) = &e.actual {
            out.append(" (");
            out.append(actual.as_str());
            out.append(")");
            assert(out@ =~= before_actual + actual_part(e@.actual));
        } else {
            assert(out@ =~= before_actual + actual_part(e@.actual));
        }
        out.append("\n");
        assert(out@ =~= start + evidence_line(e@));
    } else {
        assert(out@ =~= start + evidence_line(e@));
    }
}

/// Append the text block of one finding.
fn push_finding(out: &mut String, f: &Finding)
    ensures
        final(out)@ == old(out)@ + finding_text(f@),
{
    out.append("\n");
    out.append(f.code.as_str());
    out.append(" [");
    out.append(severity_str(f.severity));
    out.append("] ");
    out.append(f.title.as_str());
    out.append("\n");
    out.append(f.explanation.as_str());
    out.append("\n");
    push_evidence_line(out, &f.evidence);
    out.append("suggested action: ");
    out.append(f.suggested_action.as_str());
    out.append("\n");
}

/// Render a report as text, as the `inspect` and `verify` commands print it.
pub fn report_text(command: &str, clean_message: &str, report: &AnalysisReport) -> (s: String)
    ensures
        s@ == report_text_spec(
            command@,
            clean_message@,
            report.summary,
            model::findings_view(report.findings@),
        ),
{
    let summary = report.summary;
    let mut out = "psbt-guard ".to_owned();
    out.append(command);
    out.append(" report\n");
    out.append("summary: ");
    out.append(decimal_string(summary.total as u128).as_str());
    out.append(" finding(s): ");
    out.append(decimal_string(summary.info as u128).as_str());
    out.append(" info, ");
    out.append(decimal_string(summary.warning as u128).as_str());
    out.append(" warning, ");
    out.append(decimal_string(summary.violation as u128).as_str());
    out.append(" violation, ");
    out.append(decimal_string(summary.critical as u128).as_str());
    out.append(" critical\n");
    out.append("advisory: review guidance only, not a guarantee of safety\n");
    let ghost header = out@;
    let ghost fs = model::findings_view(report.findings@);
    if report.findings.len() == 0 {
        out.append(clean_message);
        out.append("\n");
        return out;
    }
    let mut i: usize = 0;
    assert(fs.take(0) =~= Seq::<FindingView>::empty());
    while i < report.findings.len()
        invariant
            i <= report.findings.len(),
            fs == model::findings_view(report.findings@),
            out@ == header + findings_text(fs.take(i as int)),
        decreases report.findings.len() - i,
    {
        push_finding(&mut out, &report.findings[i]);
        assert(fs.take(i + 1).drop_last() =~= fs.take(i as int));
        i = i + 1;
    }
    assert(fs.take(report.findings.len() as int) =~= fs);
    out
}

/// The text of a catalogue entry, as the `explain` command prints it.
pub open spec fn explanation_text_spec(e: catalogue::RuleExplanationView) -> Seq<char> {
    model::code_text(e.code) + " — "@ + e.name + "\n"@ + "typical severity: "@ + severity_name(
        e.typical_severity,
    ) + "\n"@ + "what it checks: "@ + e.what_it_checks + "\n"@ + "why it matters: "@
        + e.why_it_matters + "\n"@ + "suggested action: "@ + e.suggested_action + "\n"@
        + "advisory: review guidance only, not a guarantee of safety\n"@
}

/// Render a catalogue entry as text.
pub fn explanation_text(e: &RuleExplanation) -> (s: String)
    ensures
        s@ == explanation_text_spec(e@),
{
    let mut out = e.code.as_str().to_owned();
    out.append(" — ");
    out.append(e.name);
    out.append("\n");
    out.append("typical severity: ");
    out.append(severity_str(e.typical_severity));
    out.append("\n");
    out.append("what it checks: ");
    out.append(e.what_it_checks);
    out.append("\n");
    out.append("why it matters: ");
    out.append(e.why_it_matters);
    out.append("\n");
    out.append("suggested action: ");
    out.append(e.suggested_action);
    out.append("\n");
    out.append("advisory: review guidance only, not a guarantee of safety\n");
    out
}

} // verus!
