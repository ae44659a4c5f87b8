//! The calls this library makes into the `bitcoin` crate.
//!
//! Every item here is trusted: Verus believes its contract without proof. The
//! contracts speak of the names below, which stand for what the `bitcoin`
//! crate computes.

use bitcoin::Psbt;
use vstd::prelude::*;

use crate::intent::Network;
use crate::facts::{FieldCounts, FundingTx, InputFacts, SigningFacts, TxInputFacts, TxOutputFacts};

verus! {

/// `bitcoin::Psbt`, carried through opaquely.
#[verifier::external_type_specification]
#[verifier::external_body]
pub struct ExPsbt(bitcoin::Psbt);

/// `bitcoin::psbt::Error`, the error of binary PSBT decoding.
#[verifier::external_type_specification]
#[verifier::external_body]
pub struct ExPsbtError(bitcoin::psbt::Error);

/// `bitcoin::psbt::PsbtParseError`, the error of base64 PSBT decoding.
#[verifier::external_type_specification]
#[verifier::external_body]
pub struct ExPsbtParseError(bitcoin::psbt::PsbtParseError);

/// The inputs of `psbt.unsigned_tx`, each as the outpoint it spends.
pub uninterp spec fn psbt_tx_inputs(psbt: Psbt) -> Seq<TxInputFacts>;

/// The outputs of `psbt.unsigned_tx`.
pub uninterp spec fn psbt_tx_outputs(psbt: Psbt) -> Seq<TxOutputFacts>;

/// The PSBT input maps `psbt.inputs`.
pub uninterp spec fn psbt_input_maps(psbt: Psbt) -> Seq<InputFacts>;

/// The unknown and proprietary field counts of the PSBT output maps `psbt.outputs`.
pub uninterp spec fn psbt_output_maps(psbt: Psbt) -> Seq<FieldCounts>;

/// The unknown and proprietary field counts of the PSBT global map.
pub uninterp spec fn psbt_global_map(psbt: Psbt) -> FieldCounts;

/// `psbt.unsigned_tx.input.len()`.
#[verifier::external_body]
pub(crate) fn tx_input_count(psbt: &Psbt) -> (n: usize)
    ensures
        n == psbt_tx_inputs(*psbt).len(),
{
    psbt.unsigned_tx.input.len()
}

/// The txid bytes (`Txid::to_byte_array`) and vout of `psbt.unsigned_tx.input[i].previous_output`.
#[verifier::external_body]
pub(crate) fn tx_input_at(psbt: &Psbt, i: usize) -> (r: TxInputFacts)
    requires
        i < psbt_tx_inputs(*psbt).len(),
    ensures
        r == psbt_tx_inputs(*psbt)[i as int],
{
    let outpoint = &psbt.unsigned_tx.input[i].previous_output;
    TxInputFacts { previous_txid: bitcoin::hashes::Hash::to_byte_array(outpoint.txid).to_vec(), previous_vout: outpoint.vout }
}

/// `psbt.unsigned_tx.output.len()`.
#[verifier::external_body]
pub(crate) fn tx_output_count(psbt: &Psbt) -> (n: usize)
    ensures
        n == psbt_tx_outputs(*psbt).len(),
{
    psbt.unsigned_tx.output.len()
}

/// Value (`Amount::to_sat`) and script bytes of `psbt.unsigned_tx.output[i]`.
#[verifier::external_body]
pub(crate) fn tx_output_at(psbt: &Psbt, i: usize) -> (r: TxOutputFacts)
    requires
        i < psbt_tx_outputs(*psbt).len(),
    ensures
        r == psbt_tx_outputs(*psbt)[i as int],
{
    let output = &psbt.unsigned_tx.output[i];
    TxOutputFacts { value_sat: output.value.to_sat(), script_pubkey: output.script_pubkey.to_bytes() }
}

/// `psbt.inputs.len()`.
#[verifier::external_body]
pub(crate) fn input_map_count(psbt: &Psbt) -> (n: usize)
    ensures
        n == psbt_input_maps(*psbt).len(),
{
    psbt.inputs.len()
}

/// `psbt.inputs[i].witness_utxo`, as value and script bytes.
#[verifier::external_body]
pub(crate) fn input_witness_utxo_at(psbt: &Psbt, i: usize) -> (r: Option<TxOutputFacts>)
    requires
        i < psbt_input_maps(*psbt).len(),
    ensures
        r == psbt_input_maps(*psbt)[i as int].witness_utxo,
{
    psbt.inputs[i].witness_utxo.as_ref().map(
        |o| TxOutputFacts { value_sat: o.value.to_sat(), script_pubkey: o.script_pubkey.to_bytes() },
    )
}

/// `psbt.inputs[i].non_witness_utxo`, as its computed txid (`Transaction::compute_txid`)
/// and its outputs.
#[verifier::external_body]
pub(crate) fn input_non_witness_utxo_at(psbt: &Psbt, i: usize) -> (r: Option<FundingTx>)
    requires
        i < psbt_input_maps(*psbt).len(),
    ensures
        r == psbt_input_maps(*psbt)[i as int].non_witness_utxo,
{
    psbt.inputs[i].non_witness_utxo.as_ref().map(|tx| FundingTx {
        txid: bitcoin::hashes::Hash::to_byte_array(tx.compute_txid()).to_vec(),
        outputs: tx.output.iter().map(
            |o| TxOutputFacts { value_sat: o.value.to_sat(), script_pubkey: o.script_pubkey.to_bytes() },
        ).collect(),
    })
}

/// Sighash flag (`PsbtSighashType::to_u32`), presence of final scripts and
/// signature counts of `psbt.inputs[i]`.
#[verifier::external_body]
pub(crate) fn input_signing_at(psbt: &Psbt, i: usize) -> (r: SigningFacts)
    requires
        i < psbt_input_maps(*psbt).len(),
    ensures
        r == psbt_input_maps(*psbt)[i as int].signing,
{
    let input = &psbt.inputs[i];
    SigningFacts {
        sighash_type: input.sighash_type.map(|s| s.to_u32()),
        has_final_script_sig: input.final_script_sig.is_some(),
        has_final_script_witness: input.final_script_witness.is_some(),
        partial_sig_count: input.partial_sigs.len(),
        tap_script_sig_count: input.tap_script_sigs.len(),
        has_tap_key_sig: input.tap_key_sig.is_some(),
    }
}

/// Entry counts of `psbt.inputs[i].unknown` and `psbt.inputs[i].proprietary`.
#[verifier::external_body]
pub(crate) fn input_field_counts_at(psbt: &Psbt, i: usize) -> (r: FieldCounts)
    requires
        i < psbt_input_maps(*psbt).len(),
    ensures
        r == psbt_input_maps(*psbt)[i as int].fields,
{
    FieldCounts { unknown: psbt.inputs[i].unknown.len(), proprietary: psbt.inputs[i].proprietary.len() }
}

/// `psbt.outputs.len()`.
#[verifier::external_body]
pub(crate) fn output_map_count(psbt: &Psbt) -> (n: usize)
    ensures
        n == psbt_output_maps(*psbt).len(),
{
    psbt.outputs.len()
}

/// Entry counts of `psbt.outputs[i].unknown` and `psbt.outputs[i].proprietary`.
#[verifier::external_body]
pub(crate) fn output_field_counts_at(psbt: &Psbt, i: usize) -> (r: FieldCounts)
    requires
        i < psbt_output_maps(*psbt).len(),
    ensures
        r == psbt_output_maps(*psbt)[i as int],
{
    FieldCounts { unknown: psbt.outputs[i].unknown.len(), proprietary: psbt.outputs[i].proprietary.len() }
}

/// Entry counts of `psbt.unknown` and `psbt.proprietary`.
#[verifier::external_body]
pub(crate) fn global_field_counts(psbt: &Psbt) -> (r: FieldCounts)
    ensures
        r == psbt_global_map(*psbt),
{
    FieldCounts { unknown: psbt.unknown.len(), proprietary: psbt.proprietary.len() }
}

/// What decoding `text` as an address (`Address<NetworkUnchecked>::from_str`)
/// and then requiring `network` (`Address::require_network`) gives: the
/// canonical address text (`Display`) and its `script_pubkey` bytes, or the
/// `Display` text of the error.
pub uninterp spec fn address_decoding(text: Seq<char>, network: Network) -> Result<
    (Seq<char>, Seq<u8>),
    Seq<char>,
>;

/// Decode `text` as an address valid for `network`.
#[verifier::external_body]
pub(crate) fn decode_address(text: &str, network: Network) -> (r: Result<(String, Vec<u8>), String>)
    ensures
        match r {
            Ok((a, s)) => address_decoding(text@, network) == Ok::<(Seq<char>, Seq<u8>), Seq<char>>((a@, s@)),
            Err(e) => address_decoding(text@, network) == Err::<(Seq<char>, Seq<u8>), Seq<char>>(e@),
        },
{
    let required = match network {
        Network::Bitcoin => bitcoin::Network::Bitcoin,
        Network::Testnet => bitcoin::Network::Testnet,
        Network::Signet => bitcoin::Network::Signet,
        Network::Regtest => bitcoin::Network::Regtest,
    };
    let unchecked = <bitcoin::Address<bitcoin::address::NetworkUnchecked> as std::str::FromStr>::from_str(text)
        .map_err(|e| e.to_string())?;
    let address = unchecked.require_network(required).map_err(|e| e.to_string())?;
    Ok((address.to_string(), address.script_pubkey().to_bytes()))
}

/// Everything the rules read from a PSBT: the unsigned transaction's inputs
/// and outputs, the input maps, the output maps and the global map.
pub open spec fn psbt_contents(p: Psbt) -> (
    Seq<TxInputFacts>,
    Seq<TxOutputFacts>,
    Seq<InputFacts>,
    Seq<FieldCounts>,
    FieldCounts,
) {
    (psbt_tx_inputs(p), psbt_tx_outputs(p), psbt_input_maps(p), psbt_output_maps(p), psbt_global_map(p))
}

/// What `Psbt::deserialize` decodes from `bytes`, read as [`psbt_contents`];
/// `None` where it rejects them.
pub uninterp spec fn psbt_decoding(bytes: Seq<u8>) -> Option<
    (Seq<TxInputFacts>, Seq<TxOutputFacts>, Seq<InputFacts>, Seq<FieldCounts>, FieldCounts),
>;

/// What `Psbt::from_str` decodes from the base64 `text`, read as
/// [`psbt_contents`]; `None` where it rejects it.
pub uninterp spec fn base64_psbt_decoding(text: Seq<char>) -> Option<
    (Seq<TxInputFacts>, Seq<TxOutputFacts>, Seq<InputFacts>, Seq<FieldCounts>, FieldCounts),
>;

/// Whether `Psbt::deserialize` accepts `bytes`.
pub open spec fn decodes_as_psbt(bytes: Seq<u8>) -> bool {
    psbt_decoding(bytes) is Some
}

/// Whether `Psbt::from_str` (base64) accepts `text`.
pub open spec fn decodes_as_base64_psbt(text: Seq<char>) -> bool {
    base64_psbt_decoding(text) is Some
}

/// The BIP 174 magic prefix: `psbt` followed by the separator `0xff`.
pub open spec fn psbt_magic() -> Seq<u8> {
    seq![0x70u8, 0x73u8, 0x62u8, 0x74u8, 0xffu8]
}

/// `Psbt::deserialize`: decode binary PSBT bytes. The decoded PSBT is the one
/// these bytes decode to (decoding is a function of the bytes alone). Input
/// that does not start with the magic prefix is rejected. On success there
/// is exactly one input map per unsigned-transaction input and one output map
/// per unsigned-transaction output (the decoder reads that many maps).
#[verifier::external_body]
pub(crate) fn deserialize_psbt(bytes: &[u8]) -> (r: Result<Psbt, bitcoin::psbt::Error>)
    ensures
        r is Ok <==> decodes_as_psbt(bytes@),
        r matches Ok(p) ==> psbt_decoding(bytes@) == Some(psbt_contents(p)),
        r is Ok ==> bytes@.len() >= 5 && bytes@.subrange(0, 5) == psbt_magic(),
        r matches Ok(p) ==> psbt_input_maps(p).len() == psbt_tx_inputs(p).len()
            && psbt_output_maps(p).len() == psbt_tx_outputs(p).len(),
{
    Psbt::deserialize(bytes)
}

/// `Psbt::from_str`: decode base64, then binary PSBT. The decoded PSBT is the one the text decodes to; the same map counts hold
/// on success as for [`deserialize_psbt`].
#[verifier::external_body]
pub(crate) fn psbt_from_base64(text: &str) -> (r: Result<Psbt, bitcoin::psbt::PsbtParseError>)
    ensures
        r is Ok <==> decodes_as_base64_psbt(text@),
        r matches Ok(p) ==> base64_psbt_decoding(text@) == Some(psbt_contents(p)),
        r matches Ok(p) ==> psbt_input_maps(p).len() == psbt_tx_inputs(p).len()
            && psbt_output_maps(p).len() == psbt_tx_outputs(p).len(),
{
    <Psbt as std::str::FromStr>::from_str(text)
}

/// How `PsbtSighashType` displays a raw flag: the Taproot sighash name for
/// the seven consensus-valid values, `{:#x}` otherwise.
pub open spec fn sighash_label(raw: u32) -> Seq<char> {
    if raw == 0x00 {
        "SIGHASH_DEFAULT"@
    } else if raw == 0x01 {
        "SIGHASH_ALL"@
    } else if raw == 0x02 {
        "SIGHASH_NONE"@
    } else if raw == 0x03 {
        "SIGHASH_SINGLE"@
    } else if raw == 0x81 {
        "SIGHASH_ALL|SIGHASH_ANYONECANPAY"@
    } else if raw == 0x82 {
        "SIGHASH_NONE|SIGHASH_ANYONECANPAY"@
    } else if raw == 0x83 {
        "SIGHASH_SINGLE|SIGHASH_ANYONECANPAY"@
    } else {
        "0x"@ + crate::text::hex_number(raw as nat)
    }
}

/// `PsbtSighashType::from_u32(raw).to_string()`: render a raw sighash flag
/// as `bitcoin` displays it.
#[verifier::external_body]
pub(crate) fn sighash_type_label(raw: u32) -> (s: String)
    ensures
        s@ == sighash_label(raw),
{
    bitcoin::psbt::PsbtSighashType::from_u32(raw).to_string()
}

/// The `Display` text of `Address::from_script(script, network)` when that
/// succeeds; `None` when the script has no address form.
pub uninterp spec fn script_address(script: Seq<u8>, network: Network) -> Option<Seq<char>>;

/// Render a locking script as an address of `network`, when it has one.
#[verifier::external_body]
pub(crate) fn address_for_script(script: &[u8], network: Network) -> (r: Option<String>)
    ensures
        match r {
            Some(a) => script_address(script@, network) == Some(a@),
            None => script_address(script@, network) is None,
        },
{
    let params = match network {
        Network::Bitcoin => bitcoin::Network::Bitcoin,
        Network::Testnet => bitcoin::Network::Testnet,
        Network::Signet => bitcoin::Network::Signet,
        Network::Regtest => bitcoin::Network::Regtest,
    };
    bitcoin::Address::from_script(bitcoin::Script::from_bytes(script), params).ok().map(|a| a.to_string())
}

} // verus!
