//! Payloads may arrive gzip-compressed.  A payload is recognised by the two
//! bytes every gzip stream starts with; anything else is passed through as it
//! is.  This has to happen before any reading of the payload as text: no
//! caller knows in advance whether a source compresses.

use vstd::prelude::*;
use vstd::slice::slice_to_vec;

verus! {

/// Number of leading bytes that are looked at to recognise a compressed payload.
pub const MAGIC_LEN: usize = 2;

/// First byte of every gzip stream.
pub const GZ_MAGIC_0: u8 = 0x1f;

/// Second byte of every gzip stream.
pub const GZ_MAGIC_1: u8 = 0x8b;

/// A payload carries the gzip signature when it starts with the two magic bytes.
pub open spec fn has_gzip_signature(payload: Seq<u8>) -> bool {
    payload.len() >= MAGIC_LEN && payload[0] == GZ_MAGIC_0 && payload[1] == GZ_MAGIC_1
}

/// What inflating `payload` as a gzip stream gives: the bytes of its first
/// member, or the decoder's message where the stream is truncated or corrupt.
pub uninterp spec fn gzip_expansion(payload: Seq<u8>) -> Result<Seq<u8>, Seq<char>>;

/// What the adapter makes of `payload`: the payload itself where it carries no
/// gzip signature, else what inflating it gives.
pub open spec fn decompressed(payload: Seq<u8>) -> Result<Seq<u8>, Seq<char>> {
    if has_gzip_signature(payload) {
        gzip_expansion(payload)
    } else {
        Ok(payload)
    }
}

/// A payload that carried the gzip signature and could not be inflated.
#[derive(Debug, PartialEq, Eq)]
pub struct DecompressionError {
    /// The role of the payload, such as "user data".
    pub what: String,
    /// The decoder's message.
    pub reason: String,
}

/// A payload whose bytes are not UTF-8 text.
#[derive(Debug, PartialEq, Eq)]
pub struct DecodingError {
    /// The role of the payload, such as "user data".
    pub what: String,
}

/// The text that `bytes` encode, where they are UTF-8.
pub open spec fn decoded(bytes: Seq<u8>) -> Option<Seq<char>> {
    if vstd::utf8::valid_utf8(bytes) {
        Some(vstd::utf8::decode_utf8(bytes))
    } else {
        None
    }
}

/// `String::from_utf8`: a string exactly where the bytes are valid UTF-8, and
/// then the string that holds those bytes.
#[verifier::external_body]
fn string_from_utf8(bytes: Vec<u8>) -> (text: Option<String>)
    ensures
        text is Some <==> vstd::utf8::valid_utf8(bytes@),
        text matches Some(t) ==> vstd::utf8::encode_utf8(t@) == bytes@,
{
    String::from_utf8(bytes).ok()
}

/// Drains a `flate2::read::GzDecoder` over `payload` with `read_to_end`.  The
/// outcome is a function of the bytes alone: the inflated bytes of the first
/// gzip member, or the text of the decoder's error.
#[verifier::external_body]
fn gunzip(payload: &[u8]) -> (outcome: Result<Vec<u8>, String>)
    ensures
        match outcome {
            Ok(inflated) => gzip_expansion(payload@) == Ok::<Seq<u8>, Seq<char>>(inflated@),
            Err(reason) => gzip_expansion(payload@) == Err::<Seq<u8>, Seq<char>>(reason@),
        },
{
    let mut inflated = Vec::new();
    let mut decoder = flate2::read::GzDecoder::new(payload);
    match std::io::Read::read_to_end(&mut decoder, &mut inflated) {
        Ok(_) => Ok(inflated),
        Err(e) => Err(e.to_string()),
    }
}

/// Tells whether `payload` starts with the gzip signature.
pub fn is_gzip(payload: &[u8]) -> (found: bool)
    ensures
        found == has_gzip_signature(payload@),
{
    payload.len() >= MAGIC_LEN && payload[0] == GZ_MAGIC_0 && payload[1] == GZ_MAGIC_1
}

/// Puts the label `what` on the outcome of inflating a payload.
pub fn labelled(inflated: Result<Vec<u8>, String>, what: &str) -> (outcome: Result<
    Vec<u8>,
    DecompressionError,
>)
    ensures
        match (inflated, outcome) {
            (Ok(given), Ok(bytes)) => bytes@ == given@,
            (Err(given), Err(e)) => e.what@ == what@ && e.reason@ == given@,
            _ => false,
        },
{
    match inflated {
        Ok(bytes) => Ok(bytes),
        Err(reason) => Err(DecompressionError { what: what.to_owned(), reason }),
    }
}

/// Returns `payload` unchanged where it carries no gzip signature, and the
/// inflated bytes where it does.  A payload that carries the signature and
/// cannot be inflated is an error that names the payload's role, `what`.
pub fn decompress(payload: &[u8], what: &str) -> (outcome: Result<Vec<u8>, DecompressionError>)
    ensures
        match outcome {
            Ok(bytes) => decompressed(payload@) == Ok::<Seq<u8>, Seq<char>>(bytes@),
            Err(e) => e.what@ == what@ && decompressed(payload@) == Err::<Seq<u8>, Seq<char>>(
                e.reason@,
            ),
        },
        !has_gzip_signature(payload@) ==> outcome is Ok && outcome->Ok_0@ == payload@,
{
    if is_gzip(payload) {
        labelled(gunzip(payload), what)
    } else {
        Ok(slice_to_vec(payload))
    }
}

/// A payload without the gzip signature is left as it is, and so is what the
/// adapter made of it, when it is given to the adapter again.
pub proof fn lemma_uncompressed_unchanged(payload: Seq<u8>)
    requires
        !has_gzip_signature(payload),
    ensures
        decompressed(payload) == Ok::<Seq<u8>, Seq<char>>(payload),
        decompressed(decompressed(payload)->Ok_0) == decompressed(payload),
{
}

/// Reads `bytes` as UTF-8 text.  Bytes that are no UTF-8 are an error that
/// names the payload's role, `what`.
pub fn decode_text(bytes: Vec<u8>, what: &str) -> (outcome: Result<String, DecodingError>)
    ensures
        match outcome {
            Ok(text) => decoded(bytes@) == Some(text@),
            Err(e) => e.what@ == what@ && decoded(bytes@) is None,
        },
{
    match string_from_utf8(bytes) {
        Some(text) => {
            proof {
                vstd::utf8::encode_utf8_decode_utf8(text@);
            }
            Ok(text)
        },
        None => Err(DecodingError { what: what.to_owned() }),
    }
}

} // verus!
