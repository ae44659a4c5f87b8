use psbt_guard_core::model::{Evidence, Finding, FindingCode, Severity};
use psbt_guard_core::report::{AnalysisReport, FindingSummary};

fn sample_finding(severity: Severity) -> Finding {
    Finding {
        code: FindingCode::Pg101,
        severity,
        title: "Sample".to_owned(),
        explanation: "Sample explanation.".to_owned(),
        evidence: Evidence::input(0, "witness_utxo/non_witness_utxo", "missing"),
        suggested_action: "Review the sample.".to_owned(),
    }
}

#[test]
fn summarizes_findings_by_severity() {
    let report = AnalysisReport::from_findings(vec![
        sample_finding(Severity::Info),
        sample_finding(Severity::Warning),
        sample_finding(Severity::Critical),
    ]);

    assert_eq!(report.summary.total, 3);
    assert_eq!(report.summary.info, 1);
    assert_eq!(report.summary.warning, 1);
    assert_eq!(report.summary.critical, 1);
    assert!(report.has_blocking_findings);
}

#[test]
fn report_without_violation_or_critical_does_not_block() {
    let report = AnalysisReport::from_findings(vec![
        sample_finding(Severity::Info),
        sample_finding(Severity::Warning),
        sample_finding(Severity::Warning),
    ]);
    assert!(!report.has_blocking_findings);
    assert_eq!(
        report.summary,
        FindingSummary { total: 3, info: 1, warning: 2, violation: 0, critical: 0 }
    );

    let empty = AnalysisReport::from_findings(Vec::new());
    assert_eq!(empty.summary.total, 0);
    assert!(!empty.has_blocking_findings);

    let violation = AnalysisReport::from_findings(vec![sample_finding(Severity::Violation)]);
    assert!(violation.has_blocking_findings);
    assert_eq!(violation.summary.violation, 1);
}
