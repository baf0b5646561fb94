//! Client-side protocol adapter for a batched-execute translation RPC.
//!
//! The library builds the exact percent-encoded request body the remote
//! endpoint expects, and decodes its multi-line, JSON-in-JSON response into
//! the ordered list of translated segments. The HTTP exchange itself is left
//! to a caller-supplied [`Transport`], so the whole protocol logic is pure:
//! validation, encoding and decoding are functions of their inputs alone.

use vstd::prelude::*;

pub mod decode;
pub mod encode;
pub mod json;
pub mod lang;

use crate::decode::{decode_model, decode_response, DecodeError};
use crate::encode::encode_request;
use vstd::string::StrSliceExecFns;
use vstd::utf8::encode_utf8;

verus! {

pub use crate::lang::LanguageCode;

/// One HTTP exchange with the remote endpoint: posts the prepared body and
/// hands back the raw response text, or reports a transport-level failure.
/// The library promises nothing of a transport's behaviour; `translate`
/// states what holds of its result whatever the transport returned.
pub trait Transport {
    fn fetch(&self, body: Vec<u8>) -> Result<String, TransportFault>;
}

/// A transport-level failure: a connection error, a timeout, or a
/// non-success HTTP status, described for diagnosis only.
pub struct TransportFault {
    pub message: String,
}

/// Why a translation failed, as one of three categories.
#[derive(Clone, Copy, Debug, PartialEq, Eq, Structural)]
pub enum TranslateError {
    /// The text is empty or longer than 5000 bytes; nothing was sent.
    InvalidInput,
    /// The HTTP exchange failed; the request is never retried.
    TransportError,
    /// The response text could not be decoded.
    MalformedResponse,
}

/// A text may be translated when its UTF-8 form holds 1 to 5000 bytes.
pub open spec fn valid_text(text: Seq<char>) -> bool {
    1 <= encode_utf8(text).len() <= 5000
}

/// Translates `text` from `source_language` to `target_language` through the
/// given transport: validates the text, encodes the request, performs one
/// HTTP exchange, and decodes the response into the ordered translated
/// segments. The operation either fully succeeds or fails with one typed
/// error; an invalid text is rejected before anything is sent.
pub fn translate<T: Transport>(
    text: &str,
    source_language: LanguageCode,
    target_language: LanguageCode,
    transport: &T,
) -> (r: Result<Vec<String>, TranslateError>)
    ensures
        r == Err::<Vec<String>, TranslateError>(TranslateError::InvalidInput) <==> !valid_text(
            text@,
        ),
        match r {
            Ok(v) => exists|response: Seq<char>|
                decode_model(encode_utf8(response)) == Ok::<Seq<String>, DecodeError>(v@),
            Err(e) => e == TranslateError::MalformedResponse ==> exists|response: Seq<char>|
                decode_model(encode_utf8(response)) is Err,
        },
{
    let text_bytes = text.as_bytes_vec();
    if text_bytes.len() == 0 {
        return Err(TranslateError::InvalidInput);
    }
    if text_bytes.len() > 5000 {
        return Err(TranslateError::InvalidInput);
    }
    let body = encode_request(text, source_language, target_language);
    let response = match transport.fetch(body) {
        Ok(response) => response,
        Err(_) => {
            return Err(TranslateError::TransportError);
        },
    };
    match decode_response(response.as_str()) {
        Ok(segments) => {
            proof {
                assert(decode_model(encode_utf8(response@)) == Ok::<Seq<String>, DecodeError>(
                    segments@,
                ));
            }
            Ok(segments)
        },
        Err(_) => {
            proof {
                assert(decode_model(encode_utf8(response@)) is Err);
            }
            Err(TranslateError::MalformedResponse)
        },
    }
}

} // verus!
