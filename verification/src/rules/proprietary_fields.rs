//! PG103: surface proprietary PSBT fields.

use vstd::prelude::*;

use crate::facts::{FieldCounts, InputFacts, PsbtFacts};
use crate::model::{AnalysisContext, Evidence, EvidenceView, Finding, FindingCode, FindingView, Severity};
use crate::rules;
use crate::rules::{field_count_string, AnalysisRule};

verus! {

/// PG103: surface proprietary PSBT fields.
pub struct ProprietaryFieldsRule;

/// Title of a PG103 finding.
pub const PROPRIETARY_FIELDS_TITLE: &'static str = "PSBT contains proprietary fields";

/// Explanation of a PG103 finding.
pub const PROPRIETARY_FIELDS_EXPLANATION: &'static str = "This PSBT includes application-specific proprietary fields. They can be legitimate, but they are not part of the standard fields psbt-guard interprets.";

/// Suggested action of a PG103 finding.
pub const PROPRIETARY_FIELDS_ACTION: &'static str = "Confirm the wallet or coordinator that created the PSBT intentionally added these proprietary fields.";

/// The PG103 finding with the given evidence.
pub open spec fn proprietary_fields_finding(evidence: EvidenceView) -> FindingView {
    FindingView {
        code: FindingCode::Pg103,
        severity: Severity::Warning,
        title: PROPRIETARY_FIELDS_TITLE@,
        explanation: PROPRIETARY_FIELDS_EXPLANATION@,
        evidence,
        suggested_action: PROPRIETARY_FIELDS_ACTION@,
    }
}

/// The finding an input map gives: one when its `proprietary` map is not empty.
pub open spec fn proprietary_fields_input_check() -> spec_fn(int, InputFacts) -> Option<FindingView> {
    |i: int, input: InputFacts|
        if input.fields.proprietary > 0 {
            Some(proprietary_fields_finding(crate::model::input_evidence(i as usize, "proprietary"@, rules::field_count_text(input.fields.proprietary))))
        } else {
            None
        }
}

/// The finding an output map gives: one when its `proprietary` map is not empty.
pub open spec fn proprietary_fields_output_check() -> spec_fn(int, FieldCounts) -> Option<FindingView> {
    |i: int, output: FieldCounts|
        if output.proprietary > 0 {
            Some(proprietary_fields_finding(crate::model::output_evidence(i as usize, "proprietary"@, rules::field_count_text(output.proprietary))))
        } else {
            None
        }
}

/// All PG103 findings: the global map first, then inputs, then outputs.
pub open spec fn proprietary_fields_findings(facts: PsbtFacts) -> Seq<FindingView> {
    let global = if facts.global_fields.proprietary > 0 {
        seq![proprietary_fields_finding(crate::model::global_evidence("proprietary"@, rules::field_count_text(facts.global_fields.proprietary)))]
    } else {
        seq![]
    };
    global + rules::collect_findings(facts.inputs@, proprietary_fields_input_check())
        + rules::collect_findings(facts.outputs@, proprietary_fields_output_check())
}

impl ProprietaryFieldsRule {
    /// A PG103 finding with the given evidence.
    pub fn finding(&self, evidence: Evidence) -> (f: Finding)
        ensures
            f@ == proprietary_fields_finding(evidence@),
    {
        Finding {
            code: FindingCode::Pg103,
            severity: Severity::Warning,
            title: PROPRIETARY_FIELDS_TITLE.to_owned(),
            explanation: PROPRIETARY_FIELDS_EXPLANATION.to_owned(),
            evidence,
            suggested_action: PROPRIETARY_FIELDS_ACTION.to_owned(),
        }
    }
}

impl AnalysisRule for ProprietaryFieldsRule {
    fn code(&self) -> (c: FindingCode)
        ensures
            c == FindingCode::Pg103,
    {
        FindingCode::Pg103
    }

    fn name(&self) -> (r: &'static str)
        ensures
            r@ == "Proprietary global/input/output fields"@,
    {
        "Proprietary global/input/output fields"
    }

    fn evaluate(&self, ctx: &AnalysisContext) -> (r: Vec<Finding>)
        ensures
            crate::model::findings_view(r@) == proprietary_fields_findings(ctx.facts()),
    {
        let facts = ctx.psbt();
        let mut findings: Vec<Finding> = Vec::new();
        if facts.global_fields.proprietary > 0 {
            let actual = field_count_string(facts.global_fields.proprietary);
            findings.push(self.finding(Evidence::global("proprietary", actual.as_str())));
        }
        let ghost global = crate::model::findings_view(findings@);
        assert(crate::model::findings_view(findings@) =~= global + rules::collect_findings(
            facts.inputs@.take(0),
            proprietary_fields_input_check(),
        ));

        let mut i: usize = 0;
        while i < facts.inputs.len()
            invariant
                i <= facts.inputs.len(),
                crate::model::findings_view(findings@) == global + rules::collect_findings(
                    facts.inputs@.take(i as int),
                    proprietary_fields_input_check(),
                ),
            decreases facts.inputs.len() - i,
        {
            proof {
                rules::lemma_collect_findings_step(facts.inputs@, proprietary_fields_input_check(), i as int);
            }
            let count = facts.inputs[i].fields.proprietary;
            if count > 0 {
                let actual = field_count_string(count);
                let finding = self.finding(Evidence::input(i, "proprietary", actual.as_str()));
                proof {
                    rules::lemma_findings_view_push(findings@, finding);
                }
                findings.push(finding);
            }
            i = i + 1;
        }
        proof {
            rules::lemma_collect_findings_all(facts.inputs@, proprietary_fields_input_check());
        }
        let ghost before_outputs = crate::model::findings_view(findings@);
        assert(before_outputs =~= before_outputs + rules::collect_findings(
            facts.outputs@.take(0),
            proprietary_fields_output_check(),
        ));

        let mut i: usize = 0;
        while i < facts.outputs.len()
            invariant
                i <= facts.outputs.len(),
                crate::model::findings_view(findings@) == before_outputs + rules::collect_findings(
                    facts.outputs@.take(i as int),
                    proprietary_fields_output_check(),
                ),
            decreases facts.outputs.len() - i,
        {
            proof {
                rules::lemma_collect_findings_step(facts.outputs@, proprietary_fields_output_check(), i as int);
            }
            let count = facts.outputs[i].proprietary;
            if count > 0 {
                let actual = field_count_string(count);
                let finding = self.finding(Evidence::output(i, "proprietary", actual.as_str()));
                proof {
                    rules::lemma_findings_view_push(findings@, finding);
                }
                findings.push(finding);
            }
            i = i + 1;
        }
        proof {
            rules::lemma_collect_findings_all(facts.outputs@, proprietary_fields_output_check());
        }
        findings
    }
}

} // verus!
