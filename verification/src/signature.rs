//! Checking that an interaction was signed by Discord: the signature and the
//! signed data that a request carries, the verdict of the Ed25519 check, and the
//! messages of each failure. The Ed25519 check itself is done by the platform's
//! Web Crypto implementation, outside this library.
use vstd::prelude::*;
use vstd::string::*;

verus! {

/// The error that `hex::decode` reports.
#[verifier::external_type_specification]
#[verifier::external_body]
pub struct ExFromHexError(hex::FromHexError);

/// The value of a hexadecimal digit (either case), `None` for any other byte.
pub open spec fn hex_digit_value(b: u8) -> Option<u8> {
    if 48 <= b <= 57 {
        Some((b - 48) as u8)
    } else if 65 <= b <= 70 {
        Some((b - 55) as u8)
    } else if 97 <= b <= 102 {
        Some((b - 87) as u8)
    } else {
        None
    }
}

/// The bytes that a hexadecimal text spells, two digits per byte, the high half
/// first; `None` when the text has an odd length or a byte that is no hex digit.
pub open spec fn spec_hex_decode(s: Seq<u8>) -> Option<Seq<u8>> {
    if s.len() % 2 != 0 || exists|i: int| 0 <= i < s.len() && (#[trigger] hex_digit_value(s[i])) is None {
        None
    } else {
        Some(Seq::new(
            (s.len() / 2) as nat,
            |i: int| (hex_digit_value(s[2 * i]).unwrap() * 16 + hex_digit_value(s[2 * i + 1]).unwrap()) as u8,
        ))
    }
}

/// Decodes hexadecimal text with `hex::decode`.
/// Claimed of the outside function, as its source shows: it fails on an odd length
/// and on any byte outside `0-9`, `a-f`, `A-F`, and otherwise gives one byte per
/// pair of digits, the first digit of a pair being the high half.
#[verifier::external_body]
fn hex_decode(data: &[u8]) -> (r: Result<Vec<u8>, hex::FromHexError>)
    ensures
        r is Ok <==> spec_hex_decode(data@) is Some,
        r matches Ok(v) ==> v@ == spec_hex_decode(data@).unwrap(),
{
    hex::decode(data)
}

/// Why the signature check of a request failed.
#[derive(Clone, Copy, PartialEq, Eq, Structural, Debug)]
pub enum VerifyFailure {
    /// The request has no `X-Signature-Ed25519` header.
    MissingSignature,
    /// The signature header is not hexadecimal.
    MalformedSignature,
    /// The request has no `X-Signature-Timestamp` header.
    MissingTimestamp,
    /// The signature does not match the signed data.
    SignatureMismatch,
    /// The platform could not run the check.
    VerificationError,
}

/// The message with which each failure is reported.
pub open spec fn spec_verify_message(f: VerifyFailure) -> Seq<char> {
    match f {
        VerifyFailure::MissingSignature => "Missing signature header"@,
        VerifyFailure::MalformedSignature => "Failed to parse sig"@,
        VerifyFailure::MissingTimestamp => "Missing timestamp header"@,
        VerifyFailure::SignatureMismatch => "Signature mismatch"@,
        VerifyFailure::VerificationError => "Error verifying"@,
    }
}

impl VerifyFailure {
    /// The message with which this failure is reported.
    pub fn message(&self) -> (m: &'static str)
        ensures
            m@ == spec_verify_message(*self),
    {
        match self {
            VerifyFailure::MissingSignature => "Missing signature header",
            VerifyFailure::MalformedSignature => "Failed to parse sig",
            VerifyFailure::MissingTimestamp => "Missing timestamp header",
            VerifyFailure::SignatureMismatch => "Signature mismatch",
            VerifyFailure::VerificationError => "Error verifying",
        }
    }
}

/// Why the public key of the application could not be had.
#[derive(Clone, Copy, PartialEq, Eq, Structural, Debug)]
pub enum KeyFailure {
    /// The `DISCORD_PUBKEY` secret is not set.
    MissingSecret,
    /// The platform refused to import the key.
    ImportFailed,
    /// Importing the key failed while it ran.
    UnwrapFailed,
    /// What the import gave is not a key.
    CastFailed,
}

/// The message with which each key failure is reported.
pub open spec fn spec_key_message(f: KeyFailure) -> Seq<char> {
    match f {
        KeyFailure::MissingSecret => "Could not find DISCORD_PUBKEY"@,
        KeyFailure::ImportFailed => "Error importing key"@,
        KeyFailure::UnwrapFailed => "Error unwrapping key"@,
        KeyFailure::CastFailed => "Error casting key"@,
    }
}

impl KeyFailure {
    /// The message with which this failure is reported.
    pub fn message(&self) -> (m: &'static str)
        ensures
            m@ == spec_key_message(*self),
    {
        match self {
            KeyFailure::MissingSecret => "Could not find DISCORD_PUBKEY",
            KeyFailure::ImportFailed => "Error importing key",
            KeyFailure::UnwrapFailed => "Error unwrapping key",
            KeyFailure::CastFailed => "Error casting key",
        }
    }
}

/// What a request offers for the signature check: the signature, and the data it
/// signs (the timestamp header followed by the body).
pub struct SignedMessage {
    pub signature: Vec<u8>,
    pub data: Vec<u8>,
}

/// The signature and signed data of a request, from its two headers and its body,
/// or the first failure in the order in which they are looked at: the signature
/// header, its decoding, then the timestamp header.
pub open spec fn spec_signed_message(
    signature_header: Option<Seq<u8>>,
    timestamp_header: Option<Seq<u8>>,
    body: Seq<u8>,
) -> Result<(Seq<u8>, Seq<u8>), VerifyFailure> {
    match signature_header {
        None => Err(VerifyFailure::MissingSignature),
        Some(sig) => match spec_hex_decode(sig) {
            None => Err(VerifyFailure::MalformedSignature),
            Some(signature) => match timestamp_header {
                None => Err(VerifyFailure::MissingTimestamp),
                Some(ts) => Ok((signature, ts + body)),
            },
        },
    }
}

/// The view of an optional byte slice.
pub open spec fn opt_bytes(o: Option<&[u8]>) -> Option<Seq<u8>> {
    match o {
        Some(b) => Some(b@),
        None => None,
    }
}

/// Collects the signature and the signed data of a request.
pub fn signed_message(
    signature_header: Option<&[u8]>,
    timestamp_header: Option<&[u8]>,
    body: &[u8],
) -> (r: Result<SignedMessage, VerifyFailure>)
    ensures
        match (r, spec_signed_message(opt_bytes(signature_header), opt_bytes(timestamp_header), body@)) {
            (Ok(m), Ok((signature, data))) => m.signature@ == signature && m.data@ == data,
            (Err(f), Err(g)) => f == g,
            _ => false,
        },
{
    let sig_hex = match signature_header {
        None => return Err(VerifyFailure::MissingSignature),
        Some(h) => h,
    };
    let signature = match hex_decode(sig_hex) {
        Ok(v) => v,
        Err(_) => return Err(VerifyFailure::MalformedSignature),
    };
    let ts = match timestamp_header {
        None => return Err(VerifyFailure::MissingTimestamp),
        Some(t) => t,
    };
    let mut data = vstd::slice::slice_to_vec(ts);
    data.extend_from_slice(body);
    assert(data@ =~= ts@ + body@);
    Ok(SignedMessage { signature, data })
}

/// What the platform's Ed25519 check came to.
pub enum CryptoOutcome {
    /// The check could not be started, or failed while it ran.
    Failed,
    /// The check ran and gave this value, read as a boolean where it is one.
    Settled(Option<bool>),
}

/// The verdict on a signature from what the platform's check came to.
pub open spec fn spec_verdict(outcome: CryptoOutcome) -> Result<(), VerifyFailure> {
    match outcome {
        CryptoOutcome::Failed => Err(VerifyFailure::VerificationError),
        CryptoOutcome::Settled(Some(true)) => Ok(()),
        CryptoOutcome::Settled(_) => Err(VerifyFailure::SignatureMismatch),
    }
}

/// Law: a signature passes exactly when the check ran and answered `true`; any other
/// answer of the check is a mismatch, and a check that did not run is an error.
pub proof fn lemma_verdict_passes_only_on_true(outcome: CryptoOutcome)
    ensures
        spec_verdict(outcome) is Ok <==> outcome == CryptoOutcome::Settled(Some(true)),
        outcome is Failed ==> spec_verdict(outcome) == Err::<(), VerifyFailure>(VerifyFailure::VerificationError),
        (outcome is Settled && outcome != CryptoOutcome::Settled(Some(true)))
            ==> spec_verdict(outcome) == Err::<(), VerifyFailure>(VerifyFailure::SignatureMismatch),
{
}

/// The verdict on a signature from what the platform's check came to: it passes only
/// when the check ran and gave `true`.
pub fn signature_verdict(outcome: CryptoOutcome) -> (r: Result<(), VerifyFailure>)
    ensures
        r == spec_verdict(outcome),
{
    match outcome {
        CryptoOutcome::Failed => Err(VerifyFailure::VerificationError),
        CryptoOutcome::Settled(Some(true)) => Ok(()),
        CryptoOutcome::Settled(_) => Err(VerifyFailure::SignatureMismatch),
    }
}

/// Law: the signed data is the timestamp header followed by the whole body, and the
/// signature is the decoded signature header, two hex digits per byte, high half
/// first; this holds for every timestamp and body once the signature header decodes.
pub proof fn lemma_signed_data_is_timestamp_then_body(sig: Seq<u8>, ts: Seq<u8>, body: Seq<u8>)
    requires
        spec_hex_decode(sig) is Some,
    ensures
        spec_signed_message(Some(sig), Some(ts), body) is Ok,
        ({
            let (signature, data) = spec_signed_message(Some(sig), Some(ts), body).unwrap();
            &&& data.len() == ts.len() + body.len()
            &&& data.subrange(0, ts.len() as int) == ts
            &&& data.subrange(ts.len() as int, data.len() as int) == body
            &&& signature.len() * 2 == sig.len()
            &&& forall|i: int| 0 <= i < signature.len() ==> #[trigger] signature[i]
                == hex_digit_value(sig[2 * i]).unwrap() * 16 + hex_digit_value(sig[2 * i + 1]).unwrap()
        }),
{
    let (signature, data) = spec_signed_message(Some(sig), Some(ts), body).unwrap();
    assert(data.subrange(0, ts.len() as int) =~= ts);
    assert(data.subrange(ts.len() as int, data.len() as int) =~= body);
    assert forall|i: int| 0 <= i < signature.len() implies #[trigger] signature[i]
        == hex_digit_value(sig[2 * i]).unwrap() * 16 + hex_digit_value(sig[2 * i + 1]).unwrap() by {
        assert(hex_digit_value(sig[2 * i]) is Some);
        assert(hex_digit_value(sig[2 * i + 1]) is Some);
    }
}

} // verus!
