//! Tests for the request encoder, the response decoder, and the orchestrated
//! translate operation, run against the real outside crates.

use gtranslate::decode::{decode_response, DecodeError};
use gtranslate::encode::encode_request;
use gtranslate::{translate, LanguageCode, TranslateError, Transport, TransportFault};

/// The response line observed for a real "Hello World" exchange: the envelope
/// whose first element carries, at index 2, the payload document as a string.
const RECORDED_LINE: &str = r#"[["wrb.fr","MkEWBc","[[null,null,null,[[[0,[[[null,11]],[true]]]],11],[[\"Hello World\",null,null,11]]],[[[null,null,null,true,null,[[\"Hallo Welt\",null,null,null,[[\"Hallo Welt\",[2,5],[]]]]]]],\"de\",1,\"en\",[\"Hello World\",\"en\",\"de\",true]],\"en\"]",null,null,null,"generic"],["di",24],["af.httprm",23,"5824192319104021461",28]]"#;

/// A transport that replays a canned response text.
struct RecordedTransport {
    response: String,
}

impl Transport for RecordedTransport {
    fn fetch(&self, _body: Vec<u8>) -> Result<String, TransportFault> {
        Ok(self.response.clone())
    }
}

/// A transport that always fails, as an offline client would.
struct FailingTransport;

impl Transport for FailingTransport {
    fn fetch(&self, _body: Vec<u8>) -> Result<String, TransportFault> {
        Err(TransportFault {
            message: String::from("connection refused"),
        })
    }
}

/// A transport that must never be reached.
struct PanickingTransport;

impl Transport for PanickingTransport {
    fn fetch(&self, _body: Vec<u8>) -> Result<String, TransportFault> {
        panic!("transport must not be invoked for invalid input");
    }
}

fn recorded() -> RecordedTransport {
    RecordedTransport {
        response: format!(")]}}'\n\n{}", RECORDED_LINE),
    }
}

/// Wraps a payload document into a full response text: a dummy first line,
/// then an envelope carrying the payload serialized as a JSON string.
fn response_with_payload(payload: &str) -> String {
    let quoted = serde_json::to_string(payload).unwrap();
    format!(
        ")]}}'\n[[\"wrb.fr\",\"MkEWBc\",{},null,null,null,\"generic\"]]",
        quoted
    )
}

#[test]
fn it_works() {
    println!("Translating \"test\" into german:");
    let text = "test";
    let source_language = LanguageCode::de;
    let target_language = LanguageCode::en;
    let result = translate(text, source_language, target_language, &recorded());
    match result {
        Result::Ok(result) => {
            for res in result {
                println!("{}", res)
            }
        }
        _ => println!("failed"),
    }
}

#[test]
fn encode_is_deterministic() {
    let a = encode_request("Guten Morgen!", LanguageCode::de, LanguageCode::en);
    let b = encode_request("Guten Morgen!", LanguageCode::de, LanguageCode::en);
    assert_eq!(a, b);
}

#[test]
fn encode_exact_body() {
    let body = encode_request("test", LanguageCode::de, LanguageCode::en);
    let body = String::from_utf8(body).unwrap();
    assert_eq!(
        body,
        "f.req=%5B%5B%5B%22MkEWBc%22%2C%22%5B%5B%5C%22test%5C%22%2C%5C%22de%5C%22%2C%5C%22en%5C%22%2Ctrue%5D%2C%5B1%5D%5D%22%2Cnull%2C%22generic%22%5D%5D%5D&"
    );
}

#[test]
fn encode_round_trip_contains_fields() {
    let body = encode_request("test", LanguageCode::de, LanguageCode::en);
    let body = String::from_utf8(body).unwrap();
    assert!(body.starts_with("f.req="));
    assert!(body.ends_with('&'));
    let encoded = &body["f.req=".len()..body.len() - 1];
    let envelope = urlencoding::decode(encoded).unwrap();
    assert!(envelope.contains("test"));
    assert!(envelope.contains("de"));
    assert!(envelope.contains("en"));
    assert_eq!(
        envelope,
        r#"[[["MkEWBc","[[\"test\",\"de\",\"en\",true],[1]]",null,"generic"]]]"#
    );
}

#[test]
fn encode_escapes_quotes_and_backslashes() {
    let body = encode_request(r#"say "hi" \ bye"#, LanguageCode::en, LanguageCode::fr);
    let body = String::from_utf8(body).unwrap();
    let encoded = &body["f.req=".len()..body.len() - 1];
    let envelope = urlencoding::decode(encoded).unwrap();
    // Escaped once for the inner array, and once more for its embedding.
    assert!(envelope.contains(r#"[[\"say \\\"hi\\\" \\\\ bye\",\"en\",\"fr\",true],[1]]"#));
}

#[test]
fn encode_multibyte_text_round_trips() {
    let body = encode_request("grüße 你好", LanguageCode::de, LanguageCode::zh_CN);
    let body = String::from_utf8(body).unwrap();
    let encoded = &body["f.req=".len()..body.len() - 1];
    let envelope = urlencoding::decode(encoded).unwrap();
    assert!(envelope.contains("grüße 你好"));
    assert!(envelope.contains(r#"\"zh-CN\""#));
}

#[test]
fn wire_forms_have_no_underscore() {
    let samples = [
        (LanguageCode::de, "de"),
        (LanguageCode::en, "en"),
        (LanguageCode::auto, "auto"),
        (LanguageCode::ceb, "ceb"),
        (LanguageCode::zh_CN, "zh-CN"),
        (LanguageCode::zh_TW, "zh-TW"),
        (LanguageCode::haw, "haw"),
    ];
    for (code, wire) in samples {
        let form = code.wire_form();
        assert_eq!(form, wire);
        assert!(!form.is_empty());
        assert!(!form.contains('_'));
    }
}

#[test]
fn empty_text_rejected_without_transport() {
    let result = translate("", LanguageCode::de, LanguageCode::en, &PanickingTransport);
    assert_eq!(result, Err(TranslateError::InvalidInput));
}

#[test]
fn overlong_text_rejected_without_transport() {
    let text = "a".repeat(5001);
    let result = translate(&text, LanguageCode::de, LanguageCode::en, &PanickingTransport);
    assert_eq!(result, Err(TranslateError::InvalidInput));
}

#[test]
fn longest_allowed_text_reaches_transport() {
    let text = "a".repeat(5000);
    let result = translate(&text, LanguageCode::de, LanguageCode::en, &FailingTransport);
    assert_eq!(result, Err(TranslateError::TransportError));
}

#[test]
fn transport_failure_is_reported() {
    let result = translate("test", LanguageCode::de, LanguageCode::en, &FailingTransport);
    assert_eq!(result, Err(TranslateError::TransportError));
}

#[test]
fn decode_recorded_response() {
    let raw = format!(")]}}'\n\n{}", RECORDED_LINE);
    let result = decode_response(&raw);
    assert_eq!(result, Ok(vec![String::from("Hallo Welt")]));
}

#[test]
fn decode_without_dummy_line() {
    let result = decode_response(RECORDED_LINE);
    assert_eq!(result, Ok(vec![String::from("Hallo Welt")]));
}

#[test]
fn decode_ignores_trailing_newlines() {
    let raw = format!("{}\n\n", RECORDED_LINE);
    let result = decode_response(&raw);
    assert_eq!(result, Ok(vec![String::from("Hallo Welt")]));
}

#[test]
fn decode_empty_response() {
    assert_eq!(decode_response(""), Err(DecodeError::NoContent));
    assert_eq!(decode_response("\n\n\n"), Err(DecodeError::NoContent));
}

#[test]
fn decode_invalid_json_fails() {
    let result = decode_response(")]}'\n[[\"wrb.fr\",");
    assert_eq!(result, Err(DecodeError::InvalidJson));
    assert!(decode_response("not json at all").is_err());
}

#[test]
fn decode_missing_payload_fails() {
    // No index 2 in the first element.
    assert_eq!(
        decode_response(r#"[["wrb.fr"]]"#),
        Err(DecodeError::MissingPayload)
    );
    // Index 2 exists but is not a string.
    assert_eq!(
        decode_response(r#"[["wrb.fr","MkEWBc",null,null]]"#),
        Err(DecodeError::MissingPayload)
    );
    // The envelope is not an array at all.
    assert_eq!(
        decode_response(r#"{"wrb.fr":1}"#),
        Err(DecodeError::MissingPayload)
    );
}

#[test]
fn decode_invalid_inner_json_fails() {
    let raw = response_with_payload("[[null,");
    assert_eq!(decode_response(&raw), Err(DecodeError::InvalidInnerJson));
}

#[test]
fn decode_missing_path_fails() {
    let raw = response_with_payload("[]");
    assert_eq!(decode_response(&raw), Err(DecodeError::MissingPath));
    let raw = response_with_payload("[0,[[[0,0,0,0,0,[[0,0,0,0]]]]]]");
    assert_eq!(decode_response(&raw), Err(DecodeError::MissingPath));
}

#[test]
fn decode_non_array_node_fails() {
    let raw = response_with_payload("[0,[[[0,0,0,0,0,[[0,0,0,0,7]]]]]]");
    assert_eq!(decode_response(&raw), Err(DecodeError::UnexpectedShape));
}

#[test]
fn decode_entry_without_first_element_fails() {
    let raw = response_with_payload("[0,[[[0,0,0,0,0,[[0,0,0,0,[[]]]]]]]]");
    assert_eq!(decode_response(&raw), Err(DecodeError::UnexpectedShape));
}

#[test]
fn decode_skips_non_string_entries() {
    let raw = response_with_payload(r#"[0,[[[0,0,0,0,0,[[0,0,0,0,[["A"],[5,1],["B"]]]]]]]]"#);
    assert_eq!(
        decode_response(&raw),
        Ok(vec![String::from("A"), String::from("B")])
    );
}

#[test]
fn decode_empty_translation_is_success() {
    let raw = response_with_payload("[0,[[[0,0,0,0,0,[[0,0,0,0,[]]]]]]]");
    assert_eq!(decode_response(&raw), Ok(vec![]));
}

#[test]
fn translate_end_to_end_recorded() {
    let result = translate("test", LanguageCode::de, LanguageCode::en, &recorded());
    let segments = result.unwrap();
    assert!(!segments.is_empty());
    assert_eq!(segments, vec![String::from("Hallo Welt")]);
}

#[test]
fn translate_malformed_response_is_reported() {
    let transport = RecordedTransport {
        response: String::from(")]}'\ngarbage"),
    };
    let result = translate("test", LanguageCode::de, LanguageCode::en, &transport);
    assert_eq!(result, Err(TranslateError::MalformedResponse));
}
