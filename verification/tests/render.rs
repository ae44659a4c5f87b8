use psbt_guard_core::catalogue::explanation;
use psbt_guard_core::model::{Evidence, Finding, FindingCode, Severity};
use psbt_guard_core::render::{explanation_text, report_text};
use psbt_guard_core::report::AnalysisReport;

#[test]
fn clean_report_text_has_header_and_clean_message() {
    let report = AnalysisReport::from_findings(Vec::new());
    assert_eq!(
        report_text("inspect", "no structural findings", &report),
        "psbt-guard inspect report\n\
         summary: 0 finding(s): 0 info, 0 warning, 0 violation, 0 critical\n\
         advisory: review guidance only, not a guarantee of safety\n\
         no structural findings\n"
    );
    assert_eq!(report.exit_status(), 0);
}

#[test]
fn finding_text_lists_evidence_and_action() {
    let report = AnalysisReport::from_findings(vec![Finding {
        code: FindingCode::Pg302,
        severity: Severity::Violation,
        title: "T".to_owned(),
        explanation: "E.".to_owned(),
        evidence: Evidence::output(2, "recipient_amount", "x=1"),
        suggested_action: "A.".to_owned(),
    }]);
    assert_eq!(
        report_text("verify", "clean", &report),
        "psbt-guard verify report\n\
         summary: 1 finding(s): 0 info, 0 warning, 1 violation, 0 critical\n\
         advisory: review guidance only, not a guarantee of safety\n\
         \n\
         PG302 [Violation] T\n\
         E.\n\
         evidence: Output output #2 field recipient_amount (x=1)\n\
         suggested action: A.\n"
    );
    assert_eq!(report.exit_status(), 1);
}

#[test]
fn explanation_text_lists_every_field() {
    let text = explanation_text(&explanation(FindingCode::Pg301));
    assert!(text.starts_with("PG301 — Declared recipient address missing\ntypical severity: Violation\n"));
    assert!(text.ends_with("advisory: review guidance only, not a guarantee of safety\n"));
}
