//! PG301: every declared recipient must be paid by some output.

use vstd::prelude::*;

use crate::facts::{PsbtFacts, TxOutputFacts};
use crate::intent::{IntentView, RecipientIntent, RecipientView};
use crate::model::{AnalysisContext, Evidence, Finding, FindingCode, FindingView, Severity};
use crate::rules;
use crate::rules::AnalysisRule;
use crate::text::bytes_equal;

verus! {

/// PG301: a declared recipient address must appear among the outputs.
pub struct RecipientAddressRule;

/// Some output carries `script`.
pub open spec fn pays_script(outputs: Seq<TxOutputFacts>, script: Seq<u8>) -> bool {
    exists|j: int| 0 <= j < outputs.len() && #[trigger] outputs[j].script_pubkey@ == script
}

/// Whether some output carries `script`.
pub fn output_pays(outputs: &[TxOutputFacts], script: &[u8]) -> (r: bool)
    ensures
        r == pays_script(outputs@, script@),
{
    let mut j: usize = 0;
    while j < outputs.len()
        invariant
            j <= outputs.len(),
            forall|k: int| 0 <= k < j ==> outputs@[k].script_pubkey@ != script@,
        decreases outputs.len() - j,
    {
        if bytes_equal(outputs[j].script_pubkey.as_slice(), script) {
            assert(outputs@[j as int].script_pubkey@ == script@);
            return true;
        }
        j = j + 1;
    }
    false
}

/// The PG301 finding for a recipient whose address no output pays.
pub open spec fn missing_recipient_finding(address: Seq<char>) -> FindingView {
    FindingView {
        code: FindingCode::Pg301,
        severity: Severity::Violation,
        title: "Declared recipient address missing"@,
        explanation: "No transaction output pays declared recipient "@ + address
            + ". This can indicate recipient substitution or an incomplete manifest."@,
        evidence: crate::model::global_evidence("recipient_address"@, address + " not found"@),
        suggested_action: "Do not sign until the intended recipient appears exactly as independently verified."@,
    }
}

/// The finding a recipient gives: one when no output carries its script.
pub open spec fn recipient_address_check(outputs: Seq<TxOutputFacts>) -> spec_fn(
    int,
    RecipientView,
) -> Option<FindingView> {
    |i: int, r: RecipientView|
        if pays_script(outputs, r.script_pubkey) {
            None
        } else {
            Some(missing_recipient_finding(r.address))
        }
}

/// All PG301 findings, in recipient order; none without an intent.
pub open spec fn recipient_address_findings(facts: PsbtFacts, intent: Option<IntentView>) -> Seq<
    FindingView,
> {
    match intent {
        None => seq![],
        Some(i) => rules::collect_findings(
            i.recipients,
            recipient_address_check(facts.tx_outputs@),
        ),
    }
}

impl AnalysisRule for RecipientAddressRule {
    fn code(&self) -> (c: FindingCode)
        ensures
            c == FindingCode::Pg301,
    {
        FindingCode::Pg301
    }

    fn name(&self) -> (r: &'static str)
        ensures
            r@ == "Declared recipient address"@,
    {
        "Declared recipient address"
    }

    fn evaluate(&self, ctx: &AnalysisContext) -> (r: Vec<Finding>)
        ensures
            crate::model::findings_view(r@) == recipient_address_findings(
                ctx.facts(),
                ctx.intent_view(),
            ),
    {
        let mut findings: Vec<Finding> = Vec::new();
        assert(crate::model::findings_view(findings@) =~= Seq::<FindingView>::empty());
        let intent = match ctx.intent() {
            Some(i) => i,
            None => {
                return findings;
            },
        };
        let outputs = ctx.psbt().tx_outputs.as_slice();
        let recipients = intent.recipients();
        let ghost rv = recipients@.map_values(|x: RecipientIntent| x@);
        let ghost check = recipient_address_check(outputs@);
        let mut i: usize = 0;
        while i < recipients.len()
            invariant
                i <= recipients.len(),
                rv == recipients@.map_values(|x: RecipientIntent| x@),
                check == recipient_address_check(outputs@),
                crate::model::findings_view(findings@) == rules::collect_findings(
                    rv.take(i as int),
                    check,
                ),
            decreases recipients.len() - i,
        {
            proof {
                rules::lemma_collect_findings_step(rv, check, i as int);
            }
            let recipient = &recipients[i];
            if !output_pays(outputs, recipient.script_pubkey()) {
                let mut explanation = "No transaction output pays declared recipient ".to_owned();
                explanation.append(recipient.address());
                explanation.append(
                    ". This can indicate recipient substitution or an incomplete manifest.",
                );
                let mut actual = recipient.address().to_owned();
                actual.append(" not found");
                let finding = Finding {
                    code: FindingCode::Pg301,
                    severity: Severity::Violation,
                    title: "Declared recipient address missing".to_owned(),
                    explanation,
                    evidence: Evidence::global("recipient_address", actual.as_str()),
                    suggested_action: "Do not sign until the intended recipient appears exactly as independently verified.".to_owned(),
                };
                proof {
                    rules::lemma_findings_view_push(findings@, finding);
                }
                findings.push(finding);
            }
            i = i + 1;
        }
        proof {
            rules::lemma_collect_findings_all(rv, check);
        }
        findings
    }
}

} // verus!
