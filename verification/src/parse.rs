//! PSBT decoding.
//!
//! Accepts bytes or base64 text and returns the decoded `bitcoin::Psbt`; the
//! caller owns reading files or stdin.

use bitcoin::Psbt;
use vstd::prelude::*;

use crate::bitcoin_api;
use crate::bitcoin_api::{deserialize_psbt, psbt_from_base64};
use vstd::utf8::{decode_utf8, valid_utf8};

use crate::model::{trim_spec, trim_white_space};

verus! {

/// Errors that mean the input could not be decoded as a PSBT at all.
#[derive(Debug)]
pub enum ParseError {
    /// Binary bytes were not a valid PSBT serialization.
    Bytes(bitcoin::psbt::Error),
    /// Text was not valid base64 or decoded to invalid PSBT bytes.
    Base64(bitcoin::psbt::PsbtParseError),
}

/// Parse binary PSBT bytes.
pub fn parse_psbt_bytes(bytes: &[u8]) -> (r: Result<Psbt, ParseError>)
    ensures
        r is Ok <==> bitcoin_api::decodes_as_psbt(bytes@),
        r matches Ok(p) ==> bitcoin_api::psbt_decoding(bytes@) == Some(bitcoin_api::psbt_contents(p)),
        r is Ok ==> bytes@.len() >= 5 && bytes@.subrange(0, 5) == bitcoin_api::psbt_magic(),
        r matches Err(e) ==> e is Bytes,
        r matches Ok(p) ==> bitcoin_api::psbt_input_maps(p).len() == bitcoin_api::psbt_tx_inputs(p).len()
            && bitcoin_api::psbt_output_maps(p).len() == bitcoin_api::psbt_tx_outputs(p).len(),
{
    match deserialize_psbt(bytes) {
        Ok(p) => Ok(p),
        Err(e) => Err(ParseError::Bytes(e)),
    }
}

/// Parse a base64-encoded PSBT string, ignoring surrounding white space.
pub fn parse_psbt_base64(text: &str) -> (r: Result<Psbt, ParseError>)
    ensures
        r is Ok <==> bitcoin_api::decodes_as_base64_psbt(trim_spec(text@)),
        r matches Ok(p) ==> bitcoin_api::base64_psbt_decoding(trim_spec(text@))
            == Some(bitcoin_api::psbt_contents(p)),
        r matches Err(e) ==> e is Base64,
        r matches Ok(p) ==> bitcoin_api::psbt_input_maps(p).len() == bitcoin_api::psbt_tx_inputs(p).len()
            && bitcoin_api::psbt_output_maps(p).len() == bitcoin_api::psbt_tx_outputs(p).len(),
{
    let trimmed = trim_white_space(text);
    match psbt_from_base64(trimmed) {
        Ok(p) => Ok(p),
        Err(e) => Err(ParseError::Base64(e)),
    }
}

/// Why the contents of a PSBT file (or stdin) could not be decoded.
#[derive(Debug)]
pub enum LoadError {
    /// The bytes are no binary PSBT, and not UTF-8 text that could hold base64.
    NotText(ParseError),
    /// The bytes are neither a binary PSBT nor base64 PSBT text; the binary
    /// error comes first, the base64 error second.
    Neither(ParseError, ParseError),
}

/// `std::str::from_utf8`: the text that the bytes encode, exactly when they
/// are valid UTF-8.
#[verifier::external_body]
fn utf8_text(bytes: &[u8]) -> (r: Option<&str>)
    ensures
        r is Some <==> valid_utf8(bytes@),
        r matches Some(t) ==> t@ == decode_utf8(bytes@),
{
    std::str::from_utf8(bytes).ok()
}

/// Decode the contents of a PSBT file: first as a binary PSBT and, when that
/// fails and the bytes are UTF-8 text, as base64 text. Binary decoding wins
/// where both would succeed.
pub fn parse_psbt_bytes_or_text(bytes: &[u8]) -> (r: Result<Psbt, LoadError>)
    ensures
        r is Ok <==> bitcoin_api::decodes_as_psbt(bytes@) || (valid_utf8(bytes@)
            && bitcoin_api::decodes_as_base64_psbt(trim_spec(decode_utf8(bytes@)))),
        (r matches Err(LoadError::NotText(_))) <==> !bitcoin_api::decodes_as_psbt(bytes@)
            && !valid_utf8(bytes@),
        r matches Ok(p) ==> if bitcoin_api::decodes_as_psbt(bytes@) {
            bitcoin_api::psbt_decoding(bytes@) == Some(bitcoin_api::psbt_contents(p))
        } else {
            bitcoin_api::base64_psbt_decoding(trim_spec(decode_utf8(bytes@)))
                == Some(bitcoin_api::psbt_contents(p))
        },
        r matches Err(LoadError::NotText(e)) ==> e is Bytes,
        r matches Err(LoadError::Neither(b, t)) ==> b is Bytes && t is Base64,
        r matches Ok(p) ==> bitcoin_api::psbt_input_maps(p).len() == bitcoin_api::psbt_tx_inputs(p).len()
            && bitcoin_api::psbt_output_maps(p).len() == bitcoin_api::psbt_tx_outputs(p).len(),
{
    match parse_psbt_bytes(bytes) {
        Ok(p) => Ok(p),
        Err(bytes_error) => match utf8_text(bytes) {
            None => Err(LoadError::NotText(bytes_error)),
            Some(text) => match parse_psbt_base64(text) {
                Ok(p) => Ok(p),
                Err(text_error) => Err(LoadError::Neither(bytes_error, text_error)),
            },
        },
    }
}

} // verus!
