use slashcloud::signature::{signed_message, signature_verdict, CryptoOutcome, KeyFailure, VerifyFailure};

#[test]
fn signed_message_joins_timestamp_and_body() {
    let m = signed_message(Some(b"0aFFb3"), Some(b"1700000000"), b"{\"type\":1}").unwrap();
    assert_eq!(m.signature, vec![0x0a, 0xff, 0xb3]);
    assert_eq!(m.data, b"1700000000{\"type\":1}".to_vec());
}

#[test]
fn missing_signature_comes_first() {
    let r = signed_message(None, None, b"body");
    assert_eq!(r.err(), Some(VerifyFailure::MissingSignature));
}

#[test]
fn malformed_signature_before_missing_timestamp() {
    assert_eq!(signed_message(Some(b"0g"), None, b"").err(), Some(VerifyFailure::MalformedSignature));
    assert_eq!(signed_message(Some(b"abc"), Some(b"1"), b"").err(), Some(VerifyFailure::MalformedSignature));
}

#[test]
fn missing_timestamp() {
    assert_eq!(signed_message(Some(b"00"), None, b"x").err(), Some(VerifyFailure::MissingTimestamp));
}

#[test]
fn empty_signature_decodes_to_nothing() {
    let m = signed_message(Some(b""), Some(b""), b"").unwrap();
    assert!(m.signature.is_empty());
    assert!(m.data.is_empty());
}

#[test]
fn verdicts() {
    assert_eq!(signature_verdict(CryptoOutcome::Settled(Some(true))), Ok(()));
    assert_eq!(signature_verdict(CryptoOutcome::Settled(Some(false))), Err(VerifyFailure::SignatureMismatch));
    assert_eq!(signature_verdict(CryptoOutcome::Settled(None)), Err(VerifyFailure::SignatureMismatch));
    assert_eq!(signature_verdict(CryptoOutcome::Failed), Err(VerifyFailure::VerificationError));
}

#[test]
fn failure_messages() {
    assert_eq!(VerifyFailure::MissingSignature.message(), "Missing signature header");
    assert_eq!(VerifyFailure::MalformedSignature.message(), "Failed to parse sig");
    assert_eq!(VerifyFailure::MissingTimestamp.message(), "Missing timestamp header");
    assert_eq!(VerifyFailure::SignatureMismatch.message(), "Signature mismatch");
    assert_eq!(VerifyFailure::VerificationError.message(), "Error verifying");
    assert_eq!(KeyFailure::MissingSecret.message(), "Could not find DISCORD_PUBKEY");
    assert_eq!(KeyFailure::ImportFailed.message(), "Error importing key");
    assert_eq!(KeyFailure::UnwrapFailed.message(), "Error unwrapping key");
    assert_eq!(KeyFailure::CastFailed.message(), "Error casting key");
}
