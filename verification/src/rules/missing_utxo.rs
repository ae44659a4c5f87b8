//! PG101: every input should carry UTXO information.

use vstd::prelude::*;

use crate::model::{
    AnalysisContext, Evidence, Finding, FindingCode, FindingView, Severity,
};
use crate::facts::{InputFacts, PsbtFacts};
use crate::rules;
use crate::rules::AnalysisRule;

verus! {

/// PG101: inputs must include enough UTXO information for fee review.
pub struct MissingUtxoRule;

/// Title of a PG101 finding.
pub const MISSING_UTXO_TITLE: &'static str = "Input is missing UTXO information";

/// Explanation of a PG101 finding.
pub const MISSING_UTXO_EXPLANATION: &'static str = "This input does not include witness_utxo or non_witness_utxo, so a signer cannot independently confirm the amount being spent by that input.";

/// Suggested action of a PG101 finding.
pub const MISSING_UTXO_ACTION: &'static str = "Ask the PSBT creator to include UTXO information before reviewing fees or signing.";

/// The PG101 finding for input `index`.
pub open spec fn missing_utxo_finding(index: usize) -> FindingView {
    FindingView {
        code: FindingCode::Pg101,
        severity: Severity::Warning,
        title: MISSING_UTXO_TITLE@,
        explanation: MISSING_UTXO_EXPLANATION@,
        evidence: crate::model::input_evidence(
            index,
            "witness_utxo/non_witness_utxo"@,
            "both missing"@,
        ),
        suggested_action: MISSING_UTXO_ACTION@,
    }
}

/// The PG101 finding an input gives: one when it has neither UTXO field.
pub open spec fn missing_utxo_check() -> spec_fn(int, InputFacts) -> Option<FindingView> {
    |i: int, input: InputFacts|
        if input.witness_utxo is None && input.non_witness_utxo is None {
            Some(missing_utxo_finding(i as usize))
        } else {
            None
        }
}

/// All PG101 findings of a PSBT, in input order.
pub open spec fn missing_utxo_findings(facts: PsbtFacts) -> Seq<FindingView> {
    rules::collect_findings(facts.inputs@, missing_utxo_check())
}

impl AnalysisRule for MissingUtxoRule {
    fn code(&self) -> (c: FindingCode)
        ensures
            c == FindingCode::Pg101,
    {
        FindingCode::Pg101
    }

    fn name(&self) -> (r: &'static str)
        ensures
            r@ == "Missing UTXO information"@,
    {
        "Missing UTXO information"
    }

    fn evaluate(&self, ctx: &AnalysisContext) -> (r: Vec<Finding>)
        ensures
            crate::model::findings_view(r@) == missing_utxo_findings(ctx.facts()),
    {
        let inputs = &ctx.psbt().inputs;
        let mut findings: Vec<Finding> = Vec::new();
        let mut i: usize = 0;
        assert(crate::model::findings_view(findings@) =~= Seq::<FindingView>::empty());
        while i < inputs.len()
            invariant
                i <= inputs.len(),
                crate::model::findings_view(findings@) == rules::collect_findings(
                    inputs@.take(i as int),
                    missing_utxo_check(),
                ),
            decreases inputs.len() - i,
        {
            proof {
                rules::lemma_collect_findings_step(inputs@, missing_utxo_check(), i as int);
            }
            let input = &inputs[i];
            if input.witness_utxo.is_none() && input.non_witness_utxo.is_none() {
                let finding = Finding {
                    code: FindingCode::Pg101,
                    severity: Severity::Warning,
                    title: MISSING_UTXO_TITLE.to_owned(),
                    explanation: MISSING_UTXO_EXPLANATION.to_owned(),
                    evidence: Evidence::input(i, "witness_utxo/non_witness_utxo", "both missing"),
                    suggested_action: MISSING_UTXO_ACTION.to_owned(),
                };
                proof {
                    rules::lemma_findings_view_push(findings@, finding);
                }
                findings.push(finding);
            }
            i = i + 1;
        }
        proof {
            rules::lemma_collect_findings_all(inputs@, missing_utxo_check());
        }
        findings
    }
}

} // verus!
