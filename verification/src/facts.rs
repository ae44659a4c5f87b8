//! The library's own model of a PSBT: the plain values that the rules read.
//!
//! A [`PsbtFacts`] is extracted once from a decoded `bitcoin::Psbt`
//! (see [`PsbtFacts::from_psbt`]) or written directly by a caller.

use bitcoin::Psbt;
use vstd::prelude::*;

use crate::bitcoin_api;
use crate::bitcoin_api::{
    global_field_counts, input_field_counts_at, input_map_count, input_non_witness_utxo_at,
    input_signing_at, input_witness_utxo_at, output_field_counts_at, output_map_count,
    tx_input_at, tx_input_count, tx_output_at, tx_output_count,
};

verus! {

/// A transaction output: its value and its locking script.
#[derive(Clone, Debug, PartialEq, Eq)]
pub struct TxOutputFacts {
    /// Output value in satoshis.
    pub value_sat: u64,
    /// `scriptPubKey` bytes.
    pub script_pubkey: Vec<u8>,
}

/// The outpoint an unsigned-transaction input spends.
#[derive(Clone, Debug, PartialEq, Eq)]
pub struct TxInputFacts {
    /// Txid of the previous transaction, in internal byte order.
    pub previous_txid: Vec<u8>,
    /// Index of the spent output in the previous transaction.
    pub previous_vout: u32,
}

/// A full previous transaction supplied as `non_witness_utxo`.
#[derive(Clone, Debug, PartialEq, Eq)]
pub struct FundingTx {
    /// Txid computed from the supplied transaction, in internal byte order.
    pub txid: Vec<u8>,
    /// The outputs of the supplied transaction.
    pub outputs: Vec<TxOutputFacts>,
}

/// Number of unknown and proprietary key-value pairs in one PSBT map.
#[derive(Clone, Copy, Debug, PartialEq, Eq)]
pub struct FieldCounts {
    /// Entries of the `unknown` map.
    pub unknown: usize,
    /// Entries of the `proprietary` map.
    pub proprietary: usize,
}

/// Signing-related fields of one PSBT input map.
#[derive(Clone, Copy, Debug, PartialEq, Eq)]
pub struct SigningFacts {
    /// Raw explicit sighash flag, when the input declares one.
    pub sighash_type: Option<u32>,
    /// `final_script_sig` is present.
    pub has_final_script_sig: bool,
    /// `final_script_witness` is present.
    pub has_final_script_witness: bool,
    /// Number of partial ECDSA signatures.
    pub partial_sig_count: usize,
    /// Number of Taproot script-path signatures.
    pub tap_script_sig_count: usize,
    /// `tap_key_sig` is present.
    pub has_tap_key_sig: bool,
}

/// One PSBT input map.
#[derive(Clone, Debug, PartialEq, Eq)]
pub struct InputFacts {
    /// `witness_utxo`, when present.
    pub witness_utxo: Option<TxOutputFacts>,
    /// `non_witness_utxo`, when present.
    pub non_witness_utxo: Option<FundingTx>,
    /// Signature and finalization data.
    pub signing: SigningFacts,
    /// Unknown and proprietary field counts.
    pub fields: FieldCounts,
}

/// Everything the analysis rules read from a PSBT.
#[derive(Clone, Debug, PartialEq, Eq)]
pub struct PsbtFacts {
    /// Inputs of the unsigned transaction.
    pub tx_inputs: Vec<TxInputFacts>,
    /// Outputs of the unsigned transaction.
    pub tx_outputs: Vec<TxOutputFacts>,
    /// PSBT input maps.
    pub inputs: Vec<InputFacts>,
    /// PSBT output maps.
    pub outputs: Vec<FieldCounts>,
    /// The PSBT global map.
    pub global_fields: FieldCounts,
}

/// `f` holds exactly what the decoded PSBT `psbt` holds.
pub open spec fn facts_of(psbt: Psbt, f: PsbtFacts) -> bool {
    &&& f.tx_inputs@ == bitcoin_api::psbt_tx_inputs(psbt)
    &&& f.tx_outputs@ == bitcoin_api::psbt_tx_outputs(psbt)
    &&& f.inputs@ == bitcoin_api::psbt_input_maps(psbt)
    &&& f.outputs@ == bitcoin_api::psbt_output_maps(psbt)
    &&& f.global_fields == bitcoin_api::psbt_global_map(psbt)
}

impl PsbtFacts {
    /// Extract the facts of a decoded PSBT.
    pub fn from_psbt(psbt: &Psbt) -> (f: PsbtFacts)
        ensures
            facts_of(*psbt, f),
    {
        let n = tx_input_count(psbt);
        let mut tx_inputs: Vec<TxInputFacts> = Vec::new();
        let mut i: usize = 0;
        while i < n
            invariant
                i <= n,
                n == bitcoin_api::psbt_tx_inputs(*psbt).len(),
                tx_inputs@ =~= bitcoin_api::psbt_tx_inputs(*psbt).take(i as int),
            decreases n - i,
        {
            tx_inputs.push(tx_input_at(psbt, i));
            i = i + 1;
        }

        let n = tx_output_count(psbt);
        let mut tx_outputs: Vec<TxOutputFacts> = Vec::new();
        let mut i: usize = 0;
        while i < n
            invariant
                i <= n,
                n == bitcoin_api::psbt_tx_outputs(*psbt).len(),
                tx_outputs@ =~= bitcoin_api::psbt_tx_outputs(*psbt).take(i as int),
            decreases n - i,
        {
            tx_outputs.push(tx_output_at(psbt, i));
            i = i + 1;
        }

        let n = input_map_count(psbt);
        let mut inputs: Vec<InputFacts> = Vec::new();
        let mut i: usize = 0;
        while i < n
            invariant
                i <= n,
                n == bitcoin_api::psbt_input_maps(*psbt).len(),
                inputs@ =~= bitcoin_api::psbt_input_maps(*psbt).take(i as int),
            decreases n - i,
        {
            let input = InputFacts {
                witness_utxo: input_witness_utxo_at(psbt, i),
                non_witness_utxo: input_non_witness_utxo_at(psbt, i),
                signing: input_signing_at(psbt, i),
                fields: input_field_counts_at(psbt, i),
            };
            inputs.push(input);
            i = i + 1;
        }

        let n = output_map_count(psbt);
        let mut outputs: Vec<FieldCounts> = Vec::new();
        let mut i: usize = 0;
        while i < n
            invariant
                i <= n,
                n == bitcoin_api::psbt_output_maps(*psbt).len(),
                outputs@ =~= bitcoin_api::psbt_output_maps(*psbt).take(i as int),
            decreases n - i,
        {
            outputs.push(output_field_counts_at(psbt, i));
            i = i + 1;
        }

        proof {
            assert(bitcoin_api::psbt_tx_inputs(*psbt).take(bitcoin_api::psbt_tx_inputs(*psbt).len() as int) =~= bitcoin_api::psbt_tx_inputs(*psbt));
            assert(bitcoin_api::psbt_tx_outputs(*psbt).take(bitcoin_api::psbt_tx_outputs(*psbt).len() as int) =~= bitcoin_api::psbt_tx_outputs(*psbt));
            assert(bitcoin_api::psbt_input_maps(*psbt).take(bitcoin_api::psbt_input_maps(*psbt).len() as int) =~= bitcoin_api::psbt_input_maps(*psbt));
            assert(bitcoin_api::psbt_output_maps(*psbt).take(bitcoin_api::psbt_output_maps(*psbt).len() as int) =~= bitcoin_api::psbt_output_maps(*psbt));
        }
        PsbtFacts {
            tx_inputs,
            tx_outputs,
            inputs,
            outputs,
            global_fields: global_field_counts(psbt),
        }
    }
}

} // verus!
