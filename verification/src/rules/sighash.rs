//! PG104: flag explicit non-default sighash modes.

use vstd::prelude::*;

use crate::bitcoin_api;
use crate::bitcoin_api::sighash_type_label;
use crate::facts::{InputFacts, PsbtFacts};
use crate::model::{AnalysisContext, Evidence, Finding, FindingCode, FindingView, Severity};
use crate::rules;
use crate::rules::AnalysisRule;

verus! {

/// PG104: flag explicit non-default sighash modes.
pub struct SighashRule;

/// Title of a PG104 finding.
pub const SIGHASH_TITLE: &'static str = "Input requests a non-default sighash mode";

/// Explanation of a PG104 finding.
pub const SIGHASH_EXPLANATION: &'static str = "A non-default sighash mode can allow parts of the transaction to be changed after this input is signed.";

/// Suggested action of a PG104 finding.
pub const SIGHASH_ACTION: &'static str = "Do not sign until you understand why this PSBT needs a non-default sighash mode.";

/// The safe explicit sighash flags: Taproot `SIGHASH_DEFAULT` (0) and ECDSA
/// `SIGHASH_ALL` (1).
pub open spec fn is_safe_default_sighash_spec(raw: u32) -> bool {
    raw == 0 || raw == 1
}

/// Whether an explicit sighash flag is one of the safe defaults.
pub fn is_safe_default_sighash(raw: u32) -> (r: bool)
    ensures
        r == is_safe_default_sighash_spec(raw),
{
    raw == 0 || raw == 1
}

/// The PG104 finding for input `index` requesting flag `raw`.
pub open spec fn sighash_finding(index: usize, raw: u32) -> FindingView {
    FindingView {
        code: FindingCode::Pg104,
        severity: Severity::Critical,
        title: SIGHASH_TITLE@,
        explanation: SIGHASH_EXPLANATION@,
        evidence: crate::model::input_evidence(
            index,
            "sighash_type"@,
            bitcoin_api::sighash_label(raw),
        ),
        suggested_action: SIGHASH_ACTION@,
    }
}

/// The finding an input gives: one when it declares a sighash flag that is
/// not a safe default.
pub open spec fn sighash_check() -> spec_fn(int, InputFacts) -> Option<FindingView> {
    |i: int, input: InputFacts|
        match input.signing.sighash_type {
            Some(raw) => if is_safe_default_sighash_spec(raw) {
                None
            } else {
                Some(sighash_finding(i as usize, raw))
            },
            None => None,
        }
}

/// All PG104 findings of a PSBT, in input order.
pub open spec fn sighash_findings(facts: PsbtFacts) -> Seq<FindingView> {
    rules::collect_findings(facts.inputs@, sighash_check())
}

impl AnalysisRule for SighashRule {
    fn code(&self) -> (c: FindingCode)
        ensures
            c == FindingCode::Pg104,
    {
        FindingCode::Pg104
    }

    fn name(&self) -> (r: &'static str)
        ensures
            r@ == "Invalid or non-standard sighash information"@,
    {
        "Invalid or non-standard sighash information"
    }

    fn evaluate(&self, ctx: &AnalysisContext) -> (r: Vec<Finding>)
        ensures
            crate::model::findings_view(r@) == sighash_findings(ctx.facts()),
    {
        let inputs = &ctx.psbt().inputs;
        let mut findings: Vec<Finding> = Vec::new();
        let mut i: usize = 0;
        assert(crate::model::findings_view(findings@) =~= Seq::<FindingView>::empty());
        while i < inputs.len()
            invariant
                i <= inputs.len(),
                crate::model::findings_view(findings@) == rules::collect_findings(
                    inputs@.take(i as int),
                    sighash_check(),
                ),
            decreases inputs.len() - i,
        {
            proof {
                rules::lemma_collect_findings_step(inputs@, sighash_check(), i as int);
            }
            if let Some(raw) = inputs[i].signing.sighash_type {
                if !is_safe_default_sighash(raw) {
                    let label = sighash_type_label(raw);
                    let finding = Finding {
                        code: FindingCode::Pg104,
                        severity: Severity::Critical,
                        title: SIGHASH_TITLE.to_owned(),
                        explanation: SIGHASH_EXPLANATION.to_owned(),
                        evidence: Evidence::input(i, "sighash_type", label.as_str()),
                        suggested_action: SIGHASH_ACTION.to_owned(),
                    };
                    proof {
                        rules::lemma_findings_view_push(findings@, finding);
                    }
                    findings.push(finding);
                }
            }
            i = i + 1;
        }
        proof {
            rules::lemma_collect_findings_all(inputs@, sighash_check());
        }
        findings
    }
}

} // verus!
