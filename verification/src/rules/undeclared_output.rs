//! PG303: outputs not assigned to a declared recipient must stay within the
//! count-based change allowance. When they do not, every one is reported.

use vstd::prelude::*;

use crate::bitcoin_api;
use crate::bitcoin_api::address_for_script;
use crate::facts::{PsbtFacts, TxOutputFacts};
use crate::intent::{IntentView, Network, RecipientIntent, RecipientView};
use crate::model::{AnalysisContext, Evidence, Finding, FindingCode, FindingView, Severity};
use crate::rules;
use crate::rules::AnalysisRule;
use crate::text::{bytes_equal, decimal_string, hex_string};

verus! {

/// PG303: limit outputs that pay no declared recipient.
pub struct UndeclaredOutputRule;

/// Some declared recipient has `script`.
pub open spec fn is_declared(recipients: Seq<RecipientView>, script: Seq<u8>) -> bool {
    exists|k: int| 0 <= k < recipients.len() && #[trigger] recipients[k].script_pubkey == script
}

/// Number of the first `n` outputs that pay no declared recipient.
pub open spec fn undeclared_count(
    outputs: Seq<TxOutputFacts>,
    recipients: Seq<RecipientView>,
    n: nat,
) -> nat
    decreases n,
{
    if n == 0 {
        0
    } else {
        undeclared_count(outputs, recipients, (n - 1) as nat) + if is_declared(
            recipients,
            outputs[n - 1].script_pubkey@,
        ) {
            0nat
        } else {
            1nat
        }
    }
}

/// Where an output pays: its address on `network`, or `script_hex=<hex>`
/// when the script has no address form.
pub open spec fn destination_text(script: Seq<u8>, network: Network) -> Seq<char> {
    match bitcoin_api::script_address(script, network) {
        Some(a) => a,
        None => "script_hex="@ + crate::text::hex_bytes(script),
    }
}

/// The PG303 finding for undeclared output `index`.
pub open spec fn undeclared_finding(
    index: usize,
    output: TxOutputFacts,
    count: nat,
    max: usize,
    network: Network,
) -> FindingView {
    FindingView {
        code: FindingCode::Pg303,
        severity: Severity::Violation,
        title: "Undeclared output exceeds change allowance"@,
        explanation: "The transaction has "@ + crate::text::decimal(count)
            + " output(s) not assigned to declared recipients, exceeding the allowed "@
            + crate::text::decimal(max as nat) + " change output(s)."@,
        evidence: crate::model::output_evidence(
            index,
            "undeclared_output"@,
            "destination="@ + destination_text(output.script_pubkey@, network) + " amount_sat="@
                + crate::text::decimal(output.value_sat as nat) + " undeclared_count="@
                + crate::text::decimal(count) + " max_change_outputs="@ + crate::text::decimal(
                max as nat,
            ),
        ),
        suggested_action: "Do not sign until every extra output is identified; count-based change allowance does not prove wallet ownership."@,
    }
}

/// The finding an output gives once the allowance is exceeded: one when it
/// pays no declared recipient.
pub open spec fn undeclared_check(
    recipients: Seq<RecipientView>,
    count: nat,
    max: usize,
    network: Network,
) -> spec_fn(int, TxOutputFacts) -> Option<FindingView> {
    |j: int, o: TxOutputFacts|
        if is_declared(recipients, o.script_pubkey@) {
            None
        } else {
            Some(undeclared_finding(j as usize, o, count, max, network))
        }
}

/// All PG303 findings: none without an intent or within the allowance;
/// otherwise one per undeclared output, in output order.
pub open spec fn undeclared_output_findings(facts: PsbtFacts, intent: Option<IntentView>) -> Seq<
    FindingView,
> {
    match intent {
        None => seq![],
        Some(i) => {
            let outputs = facts.tx_outputs@;
            let count = undeclared_count(outputs, i.recipients, outputs.len() as nat);
            if count <= i.max_change_outputs {
                seq![]
            } else {
                rules::collect_findings(
                    outputs,
                    undeclared_check(i.recipients, count, i.max_change_outputs, i.network),
                )
            }
        },
    }
}

/// Whether some declared recipient has `script`.
fn declared(recipients: &[RecipientIntent], script: &[u8]) -> (r: bool)
    ensures
        r == is_declared(recipients@.map_values(|x: RecipientIntent| x@), script@),
{
    let ghost rv = recipients@.map_values(|x: RecipientIntent| x@);
    let mut k: usize = 0;
    while k < recipients.len()
        invariant
            k <= recipients.len(),
            rv == recipients@.map_values(|x: RecipientIntent| x@),
            forall|m: int| 0 <= m < k ==> rv[m].script_pubkey != script@,
        decreases recipients.len() - k,
    {
        if bytes_equal(recipients[k].script_pubkey(), script) {
            assert(rv[k as int].script_pubkey == script@);
            return true;
        }
        k = k + 1;
    }
    false
}

/// Render where an output pays.
fn destination(script: &[u8], network: Network) -> (s: String)
    ensures
        s@ == destination_text(script@, network),
{
    match address_for_script(script, network) {
        Some(a) => a,
        None => {
            let mut s = "script_hex=".to_owned();
            s.append(hex_string(script).as_str());
            s
        },
    }
}

impl AnalysisRule for UndeclaredOutputRule {
    fn code(&self) -> (c: FindingCode)
        ensures
            c == FindingCode::Pg303,
    {
        FindingCode::Pg303
    }

    fn name(&self) -> (r: &'static str)
        ensures
            r@ == "Undeclared output"@,
    {
        "Undeclared output"
    }

    fn evaluate(&self, ctx: &AnalysisContext) -> (r: Vec<Finding>)
        ensures
            crate::model::findings_view(r@) == undeclared_output_findings(
                ctx.facts(),
                ctx.intent_view(),
            ),
    {
        let mut findings: Vec<Finding> = Vec::new();
        assert(crate::model::findings_view(findings@) =~= Seq::<FindingView>::empty());
        let intent = match ctx.intent() {
            Some(i) => i,
            None => {
                return findings;
            },
        };
        let outputs = ctx.psbt().tx_outputs.as_slice();
        let recipients = intent.recipients();
        let ghost rv = recipients@.map_values(|x: RecipientIntent| x@);

        let mut count: usize = 0;
        let mut j: usize = 0;
        while j < outputs.len()
            invariant
                j <= outputs.len(),
                rv == recipients@.map_values(|x: RecipientIntent| x@),
                count == undeclared_count(outputs@, rv, j as nat),
                count <= j,
            decreases outputs.len() - j,
        {
            if !declared(recipients, outputs[j].script_pubkey.as_slice()) {
                count = count + 1;
            }
            j = j + 1;
        }

        let max = intent.change_policy().max_change_outputs();
        if count <= max {
            return findings;
        }

        let network = intent.network();
        let count_text = decimal_string(count as u128);
        let max_text = decimal_string(max as u128);
        let mut explanation = "The transaction has ".to_owned();
        explanation.append(count_text.as_str());
        explanation.append(" output(s) not assigned to declared recipients, exceeding the allowed ");
        explanation.append(max_text.as_str());
        explanation.append(" change output(s).");

        let ghost check = undeclared_check(rv, count as nat, max, network);
        let mut j: usize = 0;
        while j < outputs.len()
            invariant
                j <= outputs.len(),
                rv == recipients@.map_values(|x: RecipientIntent| x@),
                check == undeclared_check(rv, count as nat, max, network),
                count_text@ == crate::text::decimal(count as nat),
                max_text@ == crate::text::decimal(max as nat),
                explanation@ == "The transaction has "@ + crate::text::decimal(count as nat)
                    + " output(s) not assigned to declared recipients, exceeding the allowed "@
                    + crate::text::decimal(max as nat) + " change output(s)."@,
                crate::model::findings_view(findings@) == rules::collect_findings(
                    outputs@.take(j as int),
                    check,
                ),
            decreases outputs.len() - j,
        {
            proof {
                rules::lemma_collect_findings_step(outputs@, check, j as int);
            }
            let output = &outputs[j];
            if !declared(recipients, output.script_pubkey.as_slice()) {
                let mut detail = "destination=".to_owned();
                detail.append(destination(output.script_pubkey.as_slice(), network).as_str());
                detail.append(" amount_sat=");
                detail.append(decimal_string(output.value_sat as u128).as_str());
                detail.append(" undeclared_count=");
                detail.append(count_text.as_str());
                detail.append(" max_change_outputs=");
                detail.append(max_text.as_str());
                let finding = Finding {
                    code: FindingCode::Pg303,
                    severity: Severity::Violation,
                    title: "Undeclared output exceeds change allowance".to_owned(),
                    explanation: explanation.clone(),
                    evidence: Evidence::output(j, "undeclared_output", detail.as_str()),
                    suggested_action: "Do not sign until every extra output is identified; count-based change allowance does not prove wallet ownership.".to_owned(),
                };
                proof {
                    rules::lemma_findings_view_push(findings@, finding);
                }
                findings.push(finding);
            }
            j = j + 1;
        }
        proof {
            rules::lemma_collect_findings_all(outputs@, check);
        }
        findings
    }
}

} // verus!
