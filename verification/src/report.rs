//! Aggregated analysis output.
//!
//! Reports are deterministic: rules run in registry order and each rule emits
//! findings in PSBT index order.

use vstd::prelude::*;

use crate::model;
use crate::model::{AnalysisContext, Finding, FindingView, Severity};
use crate::rules;
use crate::rules::{AnalysisRule, Rule};

verus! {

/// Count of findings by severity.
#[derive(Clone, Copy, Debug, Default, PartialEq, Eq, Structural)]
pub struct FindingSummary {
    /// Total number of findings.
    pub total: usize,
    /// Informational findings.
    pub info: usize,
    /// Warning findings.
    pub warning: usize,
    /// Violation findings.
    pub violation: usize,
    /// Critical findings.
    pub critical: usize,
}

/// Number of findings of severity `s`.
pub open spec fn severity_count(fs: Seq<FindingView>, s: Severity) -> nat
    decreases fs.len(),
{
    if fs.len() == 0 {
        0
    } else {
        severity_count(fs.drop_last(), s) + if fs.last().severity == s { 1nat } else { 0nat }
    }
}

/// Some finding blocks signing.
pub open spec fn any_blocking(fs: Seq<FindingView>) -> bool {
    exists|k: int| 0 <= k < fs.len() && model::is_blocking_spec(#[trigger] fs[k].severity)
}

/// The summary of a sequence of findings.
pub open spec fn summarizes(s: FindingSummary, fs: Seq<FindingView>) -> bool {
    &&& s.total == fs.len()
    &&& s.info == severity_count(fs, Severity::Info)
    &&& s.warning == severity_count(fs, Severity::Warning)
    &&& s.violation == severity_count(fs, Severity::Violation)
    &&& s.critical == severity_count(fs, Severity::Critical)
}

/// A severity count never exceeds the number of findings.
proof fn lemma_severity_count_bound(fs: Seq<FindingView>, s: Severity)
    ensures
        severity_count(fs, s) <= fs.len(),
    decreases fs.len(),
{
    if fs.len() > 0 {
        lemma_severity_count_bound(fs.drop_last(), s);
    }
}

impl FindingSummary {
    /// Count findings by severity.
    pub fn from_findings(findings: &[Finding]) -> (s: Self)
        ensures
            summarizes(s, model::findings_view(findings@)),
    {
        let ghost fs = model::findings_view(findings@);
        let mut summary = FindingSummary { total: 0, info: 0, warning: 0, violation: 0, critical: 0 };
        let mut i: usize = 0;
        while i < findings.len()
            invariant
                i <= findings.len(),
                fs == model::findings_view(findings@),
                summarizes(summary, fs.take(i as int)),
            decreases findings.len() - i,
        {
            proof {
                assert(fs.take(i + 1).drop_last() =~= fs.take(i as int));
                lemma_severity_count_bound(fs.take(i as int), Severity::Info);
                lemma_severity_count_bound(fs.take(i as int), Severity::Warning);
                lemma_severity_count_bound(fs.take(i as int), Severity::Violation);
                lemma_severity_count_bound(fs.take(i as int), Severity::Critical);
            }
            summary.total = summary.total + 1;
            match findings[i].severity {
                Severity::Info => summary.info = summary.info + 1,
                Severity::Warning => summary.warning = summary.warning + 1,
                Severity::Violation => summary.violation = summary.violation + 1,
                Severity::Critical => summary.critical = summary.critical + 1,
            }
            i = i + 1;
        }
        assert(fs.take(findings.len() as int) =~= fs);
        summary
    }
}

/// Full analysis result.
#[derive(Clone, Debug, PartialEq, Eq)]
pub struct AnalysisReport {
    /// Finding counts.
    pub summary: FindingSummary,
    /// Whether this report should map to a failing exit status.
    pub has_blocking_findings: bool,
    /// Ordered findings.
    pub findings: Vec<Finding>,
}

/// `report` summarizes exactly the findings it holds.
pub open spec fn report_of(report: AnalysisReport, fs: Seq<FindingView>) -> bool {
    &&& model::findings_view(report.findings@) == fs
    &&& summarizes(report.summary, fs)
    &&& report.has_blocking_findings == any_blocking(fs)
}

impl AnalysisReport {
    /// Build a report from findings already emitted in deterministic order.
    pub fn from_findings(findings: Vec<Finding>) -> (r: Self)
        ensures
            r.findings@ == findings@,
            report_of(r, model::findings_view(findings@)),
    {
        let summary = FindingSummary::from_findings(findings.as_slice());
        let ghost fs = model::findings_view(findings@);
        let mut blocking = false;
        let mut i: usize = 0;
        while i < findings.len()
            invariant
                i <= findings.len(),
                fs == model::findings_view(findings@),
                blocking == exists|k: int| 0 <= k < i && model::is_blocking_spec(#[trigger] fs[k].severity),
            decreases findings.len() - i,
        {
            if findings[i].severity.is_blocking() {
                assert(model::is_blocking_spec(fs[i as int].severity));
                blocking = true;
            }
            i = i + 1;
        }
        AnalysisReport { summary, has_blocking_findings: blocking, findings }
    }
}

impl AnalysisReport {
    /// Process exit status for the report: 1 when it blocks signing, 0 otherwise.
    pub fn exit_status(&self) -> (c: u8)
        ensures
            c == if self.has_blocking_findings { 1u8 } else { 0u8 },
    {
        if self.has_blocking_findings {
            1
        } else {
            0
        }
    }
}

/// The findings of running `rules` in order against `ctx`.
pub open spec fn analysis_findings(ctx: AnalysisContext, rules: Seq<Rule>) -> Seq<FindingView>
    decreases rules.len(),
{
    if rules.len() == 0 {
        seq![]
    } else {
        analysis_findings(ctx, rules.drop_last()) + rules::rule_findings(rules.last(), ctx)
    }
}

/// Run a list of rules against a shared context.
pub fn analyze(ctx: &AnalysisContext, rules: &[Rule]) -> (r: AnalysisReport)
    ensures
        report_of(r, analysis_findings(*ctx, rules@)),
{
    let mut findings: Vec<Finding> = Vec::new();
    let mut i: usize = 0;
    assert(model::findings_view(findings@) =~= analysis_findings(*ctx, rules@.take(0)));
    while i < rules.len()
        invariant
            i <= rules.len(),
            model::findings_view(findings@) == analysis_findings(*ctx, rules@.take(i as int)),
        decreases rules.len() - i,
    {
        let mut emitted = rules[i].evaluate(ctx);
        let ghost before = findings@;
        let ghost added = emitted@;
        findings.append(&mut emitted);
        proof {
            assert(rules@.take(i + 1).drop_last() =~= rules@.take(i as int));
            assert(model::findings_view(findings@) =~= model::findings_view(before)
                + model::findings_view(added));
        }
        i = i + 1;
    }
    assert(rules@.take(rules.len() as int) =~= rules@);
    AnalysisReport::from_findings(findings)
}

} // verus!
