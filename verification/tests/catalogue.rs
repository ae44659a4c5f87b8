use psbt_guard_core::catalogue::explanation;
use psbt_guard_core::model::{FindingCode, Severity};

#[test]
fn every_finding_code_has_a_stable_explanation() {
    let codes = [
        FindingCode::Pg101,
        FindingCode::Pg102,
        FindingCode::Pg103,
        FindingCode::Pg104,
        FindingCode::Pg105,
        FindingCode::Pg201,
        FindingCode::Pg301,
        FindingCode::Pg302,
        FindingCode::Pg303,
        FindingCode::Pg304,
    ];

    for code in codes {
        let entry = explanation(code);
        assert_eq!(entry.code, code);
        assert!(!entry.name.is_empty());
        assert!(!entry.what_it_checks.is_empty());
        assert!(!entry.why_it_matters.is_empty());
        assert!(!entry.suggested_action.is_empty());
    }
}

#[test]
fn catalogue_entry_for_pg301_names_a_violation() {
    let entry = explanation(FindingCode::Pg301);
    assert_eq!(entry.name, "Declared recipient address missing");
    assert_eq!(entry.typical_severity, Severity::Violation);
    assert_eq!(explanation(FindingCode::Pg104).typical_severity, Severity::Critical);
}
