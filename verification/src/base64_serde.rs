//! Artwork bytes as text: raw image data travels as standard base64 with
//! padding wherever metadata is written out as text.

use base64::Engine;
use vstd::prelude::*;

verus! {

/// The standard padded base64 text of `bytes`, as the `base64` crate's
/// `STANDARD` engine writes it.
pub uninterp spec fn base64_encoding(bytes: Seq<u8>) -> Seq<char>;

/// The bytes that the `base64` crate's `STANDARD` engine reads from `text`,
/// or `None` where it rejects `text`.
pub uninterp spec fn base64_decoding(text: Seq<char>) -> Option<Seq<u8>>;

/// What the `base64` crate's `STANDARD` engine says of a text that it
/// rejects: the `Display` text of the `DecodeError` that its `decode`
/// returns for `text`.
pub uninterp spec fn base64_rejection(text: Seq<char>) -> Seq<char>;

/// The length of the padded base64 text of `len` bytes.
pub open spec fn encoded_len(len: int) -> int {
    (len / 3) * 4 + if len % 3 > 0 {
        4int
    } else {
        0int
    }
}

/// Why a text was not accepted as artwork.
#[derive(Debug, PartialEq, Eq)]
pub struct ArtworkError {
    pub message: String,
}

/// Calls `Engine::encode` on `base64::engine::general_purpose::STANDARD`.
/// Trusted: the result is the engine's encoding of the bytes, a function of
/// the bytes alone. The engine panics where the encoded length does not fit
/// in `usize`, which the precondition excludes.
#[verifier::external_body]
fn encode_standard(bytes: &Vec<u8>) -> (r: String)
    requires
        encoded_len(bytes@.len() as int) <= usize::MAX,
    ensures
        r@ == base64_encoding(bytes@),
{
    base64::engine::general_purpose::STANDARD.encode(bytes)
}

/// Calls `Engine::decode` on `base64::engine::general_purpose::STANDARD`
/// and, where it fails, `to_string` on the `base64::DecodeError` it
/// returns. Trusted: the call succeeds exactly on the texts the engine
/// accepts and then returns the bytes it reads from them; on every other
/// text it returns the description the engine's error gives of it. Both
/// are functions of the text alone.
#[verifier::external_body]
fn decode_standard(text: &str) -> (r: Result<Vec<u8>, String>)
    ensures
        match r {
            Ok(bytes) => base64_decoding(text@) == Some(bytes@),
            Err(message) => base64_decoding(text@) is None && message@ == base64_rejection(text@),
        },
{
    base64::engine::general_purpose::STANDARD.decode(text).map_err(|e| e.to_string())
}

/// What a decoding attempt means for the artwork field: decoded bytes are
/// the artwork, and a failure is reported with the decoder's message.
pub fn artwork_from_decoding(decoded: Result<Vec<u8>, String>) -> (r: Result<
    Option<Vec<u8>>,
    ArtworkError,
>)
    ensures
        match decoded {
            Ok(bytes) => r matches Ok(Some(b)) && b@ == bytes@,
            Err(message) => r matches Err(e) && e.message@ == message@,
        },
{
    match decoded {
        Ok(bytes) => Ok(Some(bytes)),
        Err(message) => Err(ArtworkError { message }),
    }
}

/// The text form of optional artwork bytes: absent artwork stays absent,
/// present artwork becomes its base64 text.
pub fn serialize(data: &Option<Vec<u8>>) -> (r: Option<String>)
    requires
        data matches Some(bytes) ==> encoded_len(bytes@.len() as int) <= usize::MAX,
    ensures
        match *data {
            Some(bytes) => r matches Some(text) && text@ == base64_encoding(bytes@),
            None => r is None,
        },
{
    match data {
        Some(bytes) => Some(encode_standard(bytes)),
        None => None,
    }
}

/// Optional artwork bytes from their text form: an absent text is absent
/// artwork, a text the decoder accepts is the bytes it stands for, and any
/// other text is an error that carries the decoder's description of it.
pub fn deserialize(encoded: Option<String>) -> (r: Result<Option<Vec<u8>>, ArtworkError>)
    ensures
        match encoded {
            None => r matches Ok(None),
            Some(text) => match base64_decoding(text@) {
                Some(bytes) => r matches Ok(Some(b)) && b@ == bytes,
                None => r matches Err(e) && e.message@ == base64_rejection(text@),
            },
        },
{
    match encoded {
        None => Ok(None),
        Some(text) => artwork_from_decoding(decode_standard(text.as_str())),
    }
}

} // verus!
