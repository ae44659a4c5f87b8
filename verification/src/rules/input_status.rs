//! PG105: report input signature and finalization status.

use vstd::prelude::*;

use crate::facts::{InputFacts, PsbtFacts, SigningFacts};
use crate::model::{AnalysisContext, Evidence, Finding, FindingCode, FindingView, Severity};
use crate::rules;
use crate::rules::AnalysisRule;
use crate::text::decimal_string;

verus! {

/// PG105: report input signature/finalization status.
pub struct InputStatusRule;

/// Title of a PG105 finding.
pub const INPUT_STATUS_TITLE: &'static str = "Input already has signature material";

/// Explanation of a PG105 finding.
pub const INPUT_STATUS_EXPLANATION: &'static str = "This input contains either final script data or partial signatures. psbt-guard reports this as context for review and does not modify it.";

/// Suggested action of a PG105 finding.
pub const INPUT_STATUS_ACTION: &'static str = "Confirm this signing state is expected for the review step you are performing.";

/// The input holds final script data.
pub open spec fn is_finalized(s: SigningFacts) -> bool {
    s.has_final_script_sig || s.has_final_script_witness
}

/// Partial ECDSA signatures plus Taproot script-path signatures plus the
/// Taproot key-path signature, if present.
pub open spec fn partial_signature_count(s: SigningFacts) -> nat {
    (s.partial_sig_count + s.tap_script_sig_count + if s.has_tap_key_sig { 1nat } else { 0nat }) as nat
}

/// Evidence detail: `"<finalized|partially signed>; <n> partial signature(s)"`.
pub open spec fn input_status_text(s: SigningFacts) -> Seq<char> {
    (if is_finalized(s) { "finalized"@ } else { "partially signed"@ }) + "; "@
        + crate::text::decimal(partial_signature_count(s)) + " partial signature(s)"@
}

/// The PG105 finding for input `index`.
pub open spec fn input_status_finding(index: usize, s: SigningFacts) -> FindingView {
    FindingView {
        code: FindingCode::Pg105,
        severity: Severity::Info,
        title: INPUT_STATUS_TITLE@,
        explanation: INPUT_STATUS_EXPLANATION@,
        evidence: crate::model::input_evidence(index, "input_status"@, input_status_text(s)),
        suggested_action: INPUT_STATUS_ACTION@,
    }
}

/// The finding an input gives: one when it is finalized or holds any signature.
pub open spec fn input_status_check() -> spec_fn(int, InputFacts) -> Option<FindingView> {
    |i: int, input: InputFacts|
        if is_finalized(input.signing) || partial_signature_count(input.signing) > 0 {
            Some(input_status_finding(i as usize, input.signing))
        } else {
            None
        }
}

/// All PG105 findings of a PSBT, in input order.
pub open spec fn input_status_findings(facts: PsbtFacts) -> Seq<FindingView> {
    rules::collect_findings(facts.inputs@, input_status_check())
}

impl AnalysisRule for InputStatusRule {
    fn code(&self) -> (c: FindingCode)
        ensures
            c == FindingCode::Pg105,
    {
        FindingCode::Pg105
    }

    fn name(&self) -> (r: &'static str)
        ensures
            r@ == "Input finalization / partial-signature status"@,
    {
        "Input finalization / partial-signature status"
    }

    fn evaluate(&self, ctx: &AnalysisContext) -> (r: Vec<Finding>)
        ensures
            crate::model::findings_view(r@) == input_status_findings(ctx.facts()),
    {
        let inputs = &ctx.psbt().inputs;
        let mut findings: Vec<Finding> = Vec::new();
        let mut i: usize = 0;
        assert(crate::model::findings_view(findings@) =~= Seq::<FindingView>::empty());
        while i < inputs.len()
            invariant
                i <= inputs.len(),
                crate::model::findings_view(findings@) == rules::collect_findings(
                    inputs@.take(i as int),
                    input_status_check(),
                ),
            decreases inputs.len() - i,
        {
            proof {
                rules::lemma_collect_findings_step(inputs@, input_status_check(), i as int);
            }
            let s = inputs[i].signing;
            let has_final = s.has_final_script_sig || s.has_final_script_witness;
            let key_sig: u128 = if s.has_tap_key_sig { 1 } else { 0 };
            let count: u128 = s.partial_sig_count as u128 + s.tap_script_sig_count as u128 + key_sig;
            if has_final || count > 0 {
                let mut actual = if has_final {
                    "finalized".to_owned()
                } else {
                    "partially signed".to_owned()
                };
                actual.append("; ");
                actual.append(decimal_string(count).as_str());
                actual.append(" partial signature(s)");
                let finding = Finding {
                    code: FindingCode::Pg105,
                    severity: Severity::Info,
                    title: INPUT_STATUS_TITLE.to_owned(),
                    explanation: INPUT_STATUS_EXPLANATION.to_owned(),
                    evidence: Evidence::input(i, "input_status", actual.as_str()),
                    suggested_action: INPUT_STATUS_ACTION.to_owned(),
                };
                proof {
                    rules::lemma_findings_view_push(findings@, finding);
                }
                findings.push(finding);
            }
            i = i + 1;
        }
        proof {
            rules::lemma_collect_findings_all(inputs@, input_status_check());
        }
        findings
    }
}

} // verus!
