use psbt_guard_core::parse::{
    parse_psbt_base64, parse_psbt_bytes, parse_psbt_bytes_or_text, LoadError, ParseError,
};

const VALID_PSBT_BASE64: &str = "cHNidP8BAHUCAAAAASaBcTce3/KF6Tet7qSze3gADAVmy7OtZGQXE8pCFxv2AAAAAAD+////AtPf9QUAAAAAGXapFNDFmQPFusKGh2DpD9UhpGZap2UgiKwA4fUFAAAAABepFDVF5uM7gyxHBQ8k0+65PJwDlIvHh7MuEwAAAQD9pQEBAAAAAAECiaPHHqtNIOA3G7ukzGmPopXJRjr6Ljl/hTPMti+VZ+UBAAAAFxYAFL4Y0VKpsBIDna89p95PUzSe7LmF/////4b4qkOnHf8USIk6UwpyN+9rRgi7st0tAXHmOuxqSJC0AQAAABcWABT+Pp7xp0XpdNkCxDVZQ6vLNL1TU/////8CAMLrCwAAAAAZdqkUhc/xCX/Z4Ai7NK9wnGIZeziXikiIrHL++E4sAAAAF6kUM5cluiHv1irHU6m80GfWx6ajnQWHAkcwRAIgJxK+IuAnDzlPVoMR3HyppolwuAJf3TskAinwf4pfOiQCIAGLONfc0xTnNMkna9b7QPZzMlvEuqFEyADS8vAtsnZcASED0uFWdJQbrUqZY3LLh+GFbTZSYG2YVi/jnF6efkE/IQUCSDBFAiEA0SuFLYXc2WHS9fSrZgZU327tzHlMDDPOXMMJ/7X85Y0CIGczio4OFyXBl/saiK9Z9R5E5CVbIBZ8hoQDHAXR8lkqASECI7cr7vCWXRC+B3jv7NYfysb3mk6haTkzgHNEZPhPKrMAAAAAAAAA";

#[test]
fn parses_public_bip174_base64_vector() {
    let psbt = parse_psbt_base64(VALID_PSBT_BASE64).expect("valid BIP 174 vector parses");

    assert_eq!(psbt.inputs.len(), psbt.unsigned_tx.input.len());
    assert_eq!(psbt.outputs.len(), psbt.unsigned_tx.output.len());
}

#[test]
fn invalid_base64_is_an_error_not_a_panic() {
    assert!(parse_psbt_base64("not a psbt").is_err());
}

#[test]
fn invalid_bytes_are_an_error_not_a_panic() {
    assert!(parse_psbt_bytes(b"not a binary psbt").is_err());
}

#[test]
fn base64_with_surrounding_white_space_parses() {
    let padded = format!("  {VALID_PSBT_BASE64}\n");
    assert!(parse_psbt_base64(&padded).is_ok());
}

#[test]
fn binary_round_trip_parses_and_errors_keep_their_kind() {
    let psbt = parse_psbt_base64(VALID_PSBT_BASE64).expect("valid vector");
    let bytes = psbt.serialize();
    let again = parse_psbt_bytes(&bytes).expect("binary form parses");
    assert_eq!(again, psbt);
    assert!(matches!(parse_psbt_bytes(&[0x70, 0x73]), Err(ParseError::Bytes(_))));
    assert!(matches!(parse_psbt_base64("@@@"), Err(ParseError::Base64(_))));
}

#[test]
fn file_contents_parse_as_binary_or_as_base64_text() {
    let psbt = parse_psbt_base64(VALID_PSBT_BASE64).expect("valid vector");
    let binary = psbt.serialize();
    assert_eq!(parse_psbt_bytes_or_text(&binary).expect("binary contents"), psbt);

    let text = format!("{VALID_PSBT_BASE64}\n");
    assert_eq!(parse_psbt_bytes_or_text(text.as_bytes()).expect("text contents"), psbt);
}

#[test]
fn undecodable_file_contents_report_why() {
    assert!(matches!(
        parse_psbt_bytes_or_text(&[0xff, 0xfe, 0x00]),
        Err(LoadError::NotText(ParseError::Bytes(_)))
    ));
    assert!(matches!(
        parse_psbt_bytes_or_text(b"not a psbt"),
        Err(LoadError::Neither(ParseError::Bytes(_), ParseError::Base64(_)))
    ));
}
