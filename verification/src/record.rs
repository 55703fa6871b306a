//! Proof records: receipts of the proving engine, written out for transport.
//!
//! A receipt is what the proving engine hands out for a run of a proof program: the
//! journal that the program committed, and a seal that binds the journal to the
//! program. On the wire a receipt travels as a proof record, the Base64 text of its
//! CBOR encoding. The CBOR codec and the Base64 codec are not verified here: this
//! module states what the library relies on, and nothing more. The proving engine
//! itself is never called from the library: what it is to be asked is made out
//! here, and its answer is taken as a value.

use vstd::prelude::*;

use crate::error::ProvingError;

verus! {

/// The identity of a compiled proof program: a digest of eight words.
pub type ImageId = [u32; 8];

/// The receipt of the proving engine. Nothing of its inside is known here.
#[verifier::external_type_specification]
#[verifier::external_body]
pub struct ExReceipt(risc0_zkvm::Receipt);

/// Why text is not Base64.
#[verifier::external_type_specification]
#[verifier::external_body]
pub struct ExBase64DecodeError(base64::DecodeError);

/// Why bytes are not the CBOR encoding of a value.
#[verifier::external_type_specification]
#[verifier::external_body]
#[verifier::reject_recursive_types(T)]
pub struct ExCborDecodeError<T>(ciborium::de::Error<T>);

/// Why a value was not written out as CBOR.
#[verifier::external_type_specification]
#[verifier::external_body]
#[verifier::reject_recursive_types(T)]
pub struct ExCborEncodeError<T>(ciborium::ser::Error<T>);

/// Why a reader or a writer failed.
#[verifier::external_type_specification]
#[verifier::external_body]
pub struct ExIoError(std::io::Error);

/// The journal that a receipt holds.
pub uninterp spec fn journal_bytes(receipt: risc0_zkvm::Receipt) -> Seq<u8>;

/// The bytes that text stands for in Base64 (standard alphabet, with padding);
/// `None` where the text is not such Base64.
pub uninterp spec fn base64_bytes(text: Seq<char>) -> Option<Seq<u8>>;

/// The Base64 text (standard alphabet, with padding) of bytes.
pub uninterp spec fn base64_text(bytes: Seq<u8>) -> Seq<char>;

/// The receipt that bytes are the CBOR encoding of; `None` where they are not the
/// encoding of a receipt.
pub uninterp spec fn receipt_from_cbor(cbor: Seq<u8>) -> Option<risc0_zkvm::Receipt>;

/// The CBOR encoding of a receipt; `None` where the receipt cannot be encoded.
pub uninterp spec fn receipt_to_cbor(receipt: risc0_zkvm::Receipt) -> Option<Seq<u8>>;

/// Whether the Base64 encoder takes this many bytes: four characters for every
/// three bytes must not exceed the largest length.
pub open spec fn base64_takes(len: nat) -> bool {
    (len / 3 + 1) * 4 <= usize::MAX
}

/// Hands out the journal of a receipt.
///
/// Trusted: the bytes are the field `journal.bytes` of `risc0_zkvm::Receipt`, named
/// [`journal_bytes`].
#[verifier::external_body]
pub(crate) fn journal_of(receipt: &risc0_zkvm::Receipt) -> (journal: &Vec<u8>)
    ensures
        journal@ == journal_bytes(*receipt),
{
    &receipt.journal.bytes
}

/// Decodes Base64 with `base64::Engine::decode` of the engine
/// `base64::engine::general_purpose::STANDARD`.
///
/// Trusted: the decoder's answer depends on the text alone; it is named
/// [`base64_bytes`].
#[verifier::external_body]
fn base64_decode(text: &str) -> (decoded: Result<Vec<u8>, base64::DecodeError>)
    ensures
        match decoded {
            Ok(bytes) => base64_bytes(text@) == Some(bytes@),
            Err(_) => base64_bytes(text@) is None,
        },
{
    base64::Engine::decode(&base64::engine::general_purpose::STANDARD, text)
}

/// Encodes bytes with `base64::Engine::encode` of the engine
/// `base64::engine::general_purpose::STANDARD`.
///
/// Trusted: the text depends on the bytes alone; it is named [`base64_text`]. The
/// encoder panics where the length of the text does not fit into `usize`, so such
/// bytes are not taken.
#[verifier::external_body]
fn base64_encode(bytes: &Vec<u8>) -> (text: String)
    requires
        base64_takes(bytes@.len()),
    ensures
        text@ == base64_text(bytes@),
{
    base64::Engine::encode(&base64::engine::general_purpose::STANDARD, bytes)
}

/// Decodes a receipt from CBOR with `ciborium::de::from_reader`.
///
/// Trusted: the decoder's answer depends on the bytes alone; it is named
/// [`receipt_from_cbor`].
#[verifier::external_body]
fn cbor_decode(cbor: &Vec<u8>) -> (decoded: Result<
    risc0_zkvm::Receipt,
    ciborium::de::Error<std::io::Error>,
>)
    ensures
        match decoded {
            Ok(receipt) => receipt_from_cbor(cbor@) == Some(receipt),
            Err(_) => receipt_from_cbor(cbor@) is None,
        },
{
    ciborium::de::from_reader(cbor.as_slice())
}

/// Encodes a receipt as CBOR with `ciborium::ser::into_writer`, into a new vector.
///
/// Trusted: the encoder's answer depends on the receipt alone; it is named
/// [`receipt_to_cbor`].
#[verifier::external_body]
fn cbor_encode(receipt: &risc0_zkvm::Receipt) -> (encoded: Result<
    Vec<u8>,
    ciborium::ser::Error<std::io::Error>,
>)
    ensures
        match encoded {
            Ok(cbor) => receipt_to_cbor(*receipt) == Some(cbor@),
            Err(_) => receipt_to_cbor(*receipt) is None,
        },
{
    let mut cbor: Vec<u8> = Vec::new();
    match ciborium::ser::into_writer(receipt, &mut cbor) {
        Ok(()) => Ok(cbor),
        Err(failure) => Err(failure),
    }
}

/// The receipt that a proof record holds; `None` where the text is not Base64 or
/// the bytes are not a receipt.
pub open spec fn receipt_in(zkp: Seq<char>) -> Option<risc0_zkvm::Receipt> {
    match base64_bytes(zkp) {
        Some(cbor) => receipt_from_cbor(cbor),
        None => None,
    }
}

/// The journal that a proof record holds.
pub open spec fn journal_in(zkp: Seq<char>) -> Option<Seq<u8>> {
    match receipt_in(zkp) {
        Some(receipt) => Some(journal_bytes(receipt)),
        None => None,
    }
}

/// The proof record of a receipt; `None` where the receipt cannot be encoded, or
/// its encoding is too long for Base64.
pub open spec fn record_of(receipt: risc0_zkvm::Receipt) -> Option<Seq<char>> {
    match receipt_to_cbor(receipt) {
        Some(cbor) => if base64_takes(cbor.len()) {
            Some(base64_text(cbor))
        } else {
            None
        },
        None => None,
    }
}

/// Reads the receipt out of a proof record.
pub fn open_record(zkp: &str) -> (opened: Option<risc0_zkvm::Receipt>)
    ensures
        opened == receipt_in(zkp@),
{
    match base64_decode(zkp) {
        Err(_) => None,
        Ok(cbor) => match cbor_decode(&cbor) {
            Err(_) => None,
            Ok(receipt) => Some(receipt),
        },
    }
}

/// Writes a receipt out as a proof record.
pub fn write_record(receipt: &risc0_zkvm::Receipt) -> (written: Result<String, ProvingError>)
    ensures
        match written {
            Ok(zkp) => record_of(*receipt) == Some(zkp@),
            Err(failure) => record_of(*receipt) is None && failure
                == ProvingError::SerializationFailed,
        },
{
    match cbor_encode(receipt) {
        Err(_) => Err(ProvingError::SerializationFailed),
        Ok(cbor) => {
            if cbor.len() / 3 >= usize::MAX / 4 {
                Err(ProvingError::SerializationFailed)
            } else {
                Ok(base64_encode(&cbor))
            }
        },
    }
}

} // verus!
