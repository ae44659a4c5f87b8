//! PG102: surface unknown PSBT fields.

use vstd::prelude::*;

use crate::facts::{FieldCounts, InputFacts, PsbtFacts};
use crate::model::{AnalysisContext, Evidence, EvidenceView, Finding, FindingCode, FindingView, Severity};
use crate::rules;
use crate::rules::{field_count_string, AnalysisRule};

verus! {

/// PG102: surface unknown PSBT fields.
pub struct UnknownFieldsRule;

/// Title of a PG102 finding.
pub const UNKNOWN_FIELDS_TITLE: &'static str = "PSBT contains unknown fields";

/// Explanation of a PG102 finding.
pub const UNKNOWN_FIELDS_EXPLANATION: &'static str = "This PSBT includes key-value fields that rust-bitcoin does not recognize as standard PSBT fields.";

/// Suggested action of a PG102 finding.
pub const UNKNOWN_FIELDS_ACTION: &'static str = "Review the PSBT source and decide whether these unknown fields are expected before signing.";

/// The PG102 finding with the given evidence.
pub open spec fn unknown_fields_finding(evidence: EvidenceView) -> FindingView {
    FindingView {
        code: FindingCode::Pg102,
        severity: Severity::Warning,
        title: UNKNOWN_FIELDS_TITLE@,
        explanation: UNKNOWN_FIELDS_EXPLANATION@,
        evidence,
        suggested_action: UNKNOWN_FIELDS_ACTION@,
    }
}

/// The finding an input map gives: one when its `unknown` map is not empty.
pub open spec fn unknown_fields_input_check() -> spec_fn(int, InputFacts) -> Option<FindingView> {
    |i: int, input: InputFacts|
        if input.fields.unknown > 0 {
            Some(unknown_fields_finding(crate::model::input_evidence(i as usize, "unknown"@, rules::field_count_text(input.fields.unknown))))
        } else {
            None
        }
}

/// The finding an output map gives: one when its `unknown` map is not empty.
pub open spec fn unknown_fields_output_check() -> spec_fn(int, FieldCounts) -> Option<FindingView> {
    |i: int, output: FieldCounts|
        if output.unknown > 0 {
            Some(unknown_fields_finding(crate::model::output_evidence(i as usize, "unknown"@, rules::field_count_text(output.unknown))))
        } else {
            None
        }
}

/// All PG102 findings: the global map first, then inputs, then outputs.
pub open spec fn unknown_fields_findings(facts: PsbtFacts) -> Seq<FindingView> {
    let global = if facts.global_fields.unknown > 0 {
        seq![unknown_fields_finding(crate::model::global_evidence("unknown"@, rules::field_count_text(facts.global_fields.unknown)))]
    } else {
        seq![]
    };
    global + rules::collect_findings(facts.inputs@, unknown_fields_input_check())
        + rules::collect_findings(facts.outputs@, unknown_fields_output_check())
}

impl UnknownFieldsRule {
    /// A PG102 finding with the given evidence.
    pub fn finding(&self, evidence: Evidence) -> (f: Finding)
        ensures
            f@ == unknown_fields_finding(evidence@),
    {
        Finding {
            code: FindingCode::Pg102,
            severity: Severity::Warning,
            title: UNKNOWN_FIELDS_TITLE.to_owned(),
            explanation: UNKNOWN_FIELDS_EXPLANATION.to_owned(),
            evidence,
            suggested_action: UNKNOWN_FIELDS_ACTION.to_owned(),
        }
    }
}

impl AnalysisRule for UnknownFieldsRule {
    fn code(&self) -> (c: FindingCode)
        ensures
            c == FindingCode::Pg102,
    {
        FindingCode::Pg102
    }

    fn name(&self) -> (r: &'static str)
        ensures
            r@ == "Unknown global/input/output fields"@,
    {
        "Unknown global/input/output fields"
    }

    fn evaluate(&self, ctx: &AnalysisContext) -> (r: Vec<Finding>)
        ensures
            crate::model::findings_view(r@) == unknown_fields_findings(ctx.facts()),
    {
        let facts = ctx.psbt();
        let mut findings: Vec<Finding> = Vec::new();
        if facts.global_fields.unknown > 0 {
            let actual = field_count_string(facts.global_fields.unknown);
            findings.push(self.finding(Evidence::global("unknown", actual.as_str())));
        }
        let ghost global = crate::model::findings_view(findings@);
        assert(crate::model::findings_view(findings@) =~= global + rules::collect_findings(
            facts.inputs@.take(0),
            unknown_fields_input_check(),
        ));

        let mut i: usize = 0;
        while i < facts.inputs.len()
            invariant
                i <= facts.inputs.len(),
                crate::model::findings_view(findings@) == global + rules::collect_findings(
                    facts.inputs@.take(i as int),
                    unknown_fields_input_check(),
                ),
            decreases facts.inputs.len() - i,
        {
            proof {
                rules::lemma_collect_findings_step(facts.inputs@, unknown_fields_input_check(), i as int);
            }
            let count = facts.inputs[i].fields.unknown;
            if count > 0 {
                let actual = field_count_string(count);
                let finding = self.finding(Evidence::input(i, "unknown", actual.as_str()));
                proof {
                    rules::lemma_findings_view_push(findings@, finding);
                }
                findings.push(finding);
            }
            i = i + 1;
        }
        proof {
            rules::lemma_collect_findings_all(facts.inputs@, unknown_fields_input_check());
        }
        let ghost before_outputs = crate::model::findings_view(findings@);
        assert(before_outputs =~= before_outputs + rules::collect_findings(
            facts.outputs@.take(0),
            unknown_fields_output_check(),
        ));

        let mut i: usize = 0;
        while i < facts.outputs.len()
            invariant
                i <= facts.outputs.len(),
                crate::model::findings_view(findings@) == before_outputs + rules::collect_findings(
                    facts.outputs@.take(i as int),
                    unknown_fields_output_check(),
                ),
            decreases facts.outputs.len() - i,
        {
            proof {
                rules::lemma_collect_findings_step(facts.outputs@, unknown_fields_output_check(), i as int);
            }
            let count = facts.outputs[i].unknown;
            if count > 0 {
                let actual = field_count_string(count);
                let finding = self.finding(Evidence::output(i, "unknown", actual.as_str()));
                proof {
                    rules::lemma_findings_view_push(findings@, finding);
                }
                findings.push(finding);
            }
            i = i + 1;
        }
        proof {
            rules::lemma_collect_findings_all(facts.outputs@, unknown_fields_output_check());
        }
        findings
    }
}

} // verus!
