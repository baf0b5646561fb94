//! Response decoder: turns the raw multi-line response text into the ordered
//! list of translated segments.
//!
//! Only the last non-empty line of the response carries JSON; earlier lines
//! are framing noise. That line's first element holds, at index 2, a second
//! JSON document serialized as a string, and inside that document a fixed,
//! undocumented path leads to the array of translation entries. Every
//! navigation step is fallible and reports a distinct failure.

use vstd::prelude::*;
use vstd::string::StrSliceExecFns;
use vstd::utf8::encode_utf8;

use crate::json::{json_index, json_parse, json_str, parse_json_bytes, Json};

verus! {

/// Why a response could not be decoded. Every variant is one failed step of
/// the fixed navigation; a legitimately empty translation is not an error.
#[derive(Clone, Copy, Debug, PartialEq, Eq, Structural)]
pub enum DecodeError {
    /// The response holds no non-empty line.
    NoContent,
    /// The last non-empty line is not valid JSON.
    InvalidJson,
    /// The envelope carries no JSON string at index 2 of its first element.
    MissingPayload,
    /// The embedded payload string is not itself valid JSON.
    InvalidInnerJson,
    /// The payload lacks the fixed path to the translation node.
    MissingPath,
    /// The translation node is not an array of non-empty arrays.
    UnexpectedShape,
}

/// The index of the last byte that is not a line feed, or `-1` when every
/// byte is one.
pub open spec fn last_content_index(s: Seq<u8>) -> int
    decreases s.len(),
{
    if s.len() == 0 {
        -1
    } else if s[s.len() - 1] != '\n' as u8 {
        s.len() - 1
    } else {
        last_content_index(s.drop_last())
    }
}

/// The start of the line that contains index `e`: the nearest position at or
/// before `e` that sits at the start of the text or right after a line feed.
pub open spec fn line_start(s: Seq<u8>, e: int) -> int
    decreases e,
{
    if e <= 0 {
        0
    } else if s[e - 1] == '\n' as u8 {
        e
    } else {
        line_start(s, e - 1)
    }
}

/// The last non-empty line of the text, or `None` when there is none.
pub open spec fn last_nonempty_line(s: Seq<u8>) -> Option<Seq<u8>> {
    let e = last_content_index(s);
    if e < 0 {
        None
    } else {
        Some(s.subrange(line_start(s, e), e + 1))
    }
}

/// The node reached from the payload root along the fixed path
/// `[1][0][0][5][0][4]`. Index 4 selects the primary translation entry among
/// the candidates held by its parent.
pub open spec fn translation_node(payload: Json) -> Option<Json> {
    match json_index(payload, 1) {
        None => None,
        Some(n1) => match json_index(n1, 0) {
            None => None,
            Some(n2) => match json_index(n2, 0) {
                None => None,
                Some(n3) => match json_index(n3, 5) {
                    None => None,
                    Some(n4) => match json_index(n4, 0) {
                        None => None,
                        Some(n5) => json_index(n5, 4),
                    },
                },
            },
        },
    }
}

/// The string at index 2 of the envelope's first element: the embedded
/// payload document, serialized as a string.
pub open spec fn envelope_payload(outer: Json) -> Option<String> {
    match json_index(outer, 0) {
        None => None,
        Some(first) => match json_index(first, 2) {
            None => None,
            Some(third) => json_str(third),
        },
    }
}

/// The translated segments drawn from the entries at `i` onward: each entry
/// must have an element at index 0; entries whose first element is a string
/// contribute it in order, the others are protocol noise and are skipped.
pub open spec fn segments_from(elems: Seq<Json>, i: int) -> Option<Seq<String>>
    recommends
        0 <= i,
    decreases elems.len() - i,
{
    if i >= elems.len() {
        Some(Seq::empty())
    } else {
        match json_index(elems[i], 0) {
            None => None,
            Some(first) => match segments_from(elems, i + 1) {
                None => None,
                Some(rest) => match first {
                    Json::Str(s) => Some(seq![s] + rest),
                    _ => Some(rest),
                },
            },
        }
    }
}

/// What decoding the given response bytes yields: either the ordered
/// translated segments, or the first navigation step that failed.
pub open spec fn decode_model(bytes: Seq<u8>) -> Result<Seq<String>, DecodeError> {
    match last_nonempty_line(bytes) {
        None => Err(DecodeError::NoContent),
        Some(line) => match json_parse(line) {
            None => Err(DecodeError::InvalidJson),
            Some(outer) => match envelope_payload(outer) {
                None => Err(DecodeError::MissingPayload),
                Some(payload_str) => match json_parse(encode_utf8(payload_str@)) {
                    None => Err(DecodeError::InvalidInnerJson),
                    Some(payload) => match translation_node(payload) {
                        None => Err(DecodeError::MissingPath),
                        Some(node) => match node {
                            Json::Arr(entries) => match segments_from(entries@, 0) {
                                None => Err(DecodeError::UnexpectedShape),
                                Some(segments) => Ok(segments),
                            },
                            _ => Err(DecodeError::UnexpectedShape),
                        },
                    },
                },
            },
        },
    }
}

/// Copies the last non-empty line out of `b`.
fn take_last_nonempty_line(b: &Vec<u8>) -> (r: Option<Vec<u8>>)
    ensures
        match r {
            Some(line) => last_nonempty_line(b@) == Some(line@),
            None => last_nonempty_line(b@) is None,
        },
{
    let mut e: usize = b.len();
    proof {
        assert(b@.take(b@.len() as int) =~= b@);
    }
    while e > 0 && b[e - 1] == '\n' as u8
        invariant
            e <= b@.len(),
            last_content_index(b@) == last_content_index(b@.take(e as int)),
        decreases e,
    {
        proof {
            assert(b@.take(e as int).drop_last() =~= b@.take(e - 1 as int));
        }
        e = e - 1;
    }
    proof {
        assert(b@.take(b@.len() as int) =~= b@);
    }
    if e == 0 {
        proof {
            assert(b@.take(0) =~= Seq::<u8>::empty());
        }
        return None;
    }
    let last = e - 1;
    proof {
        assert(b@.take(e as int).drop_last() =~= b@.take(e - 1 as int));
        assert(last_content_index(b@) == last as int);
    }
    let mut start: usize = last;
    while start > 0 && b[start - 1] != '\n' as u8
        invariant
            start <= last < b@.len(),
            line_start(b@, last as int) == line_start(b@, start as int),
        decreases start,
    {
        start = start - 1;
    }
    proof {
        assert(line_start(b@, last as int) == start as int);
    }
    let mut line: Vec<u8> = Vec::new();
    let mut i: usize = start;
    while i < e
        invariant
            start <= i <= e <= b@.len(),
            e == last + 1,
            line@ == b@.subrange(start as int, i as int),
        decreases e - i,
    {
        proof {
            assert(b@.subrange(start as int, i + 1 as int) =~= b@.subrange(
                start as int,
                i as int,
            ).push(b@[i as int]));
        }
        line.push(b[i]);
        i = i + 1;
    }
    Some(line)
}

/// Decodes the raw response text into the ordered translated segments, or
/// reports which navigation step failed. A structurally sound response with
/// no translation entries decodes to an empty list, distinct from every
/// error.
pub fn decode_response(raw: &str) -> (r: Result<Vec<String>, DecodeError>)
    ensures
        match r {
            Ok(v) => decode_model(encode_utf8(raw@)) == Ok::<Seq<String>, DecodeError>(v@),
            Err(e) => decode_model(encode_utf8(raw@)) == Err::<Seq<String>, DecodeError>(e),
        },
{
    let bytes = raw.as_bytes_vec();
    let ghost m = decode_model(encode_utf8(raw@));
    let line = match take_last_nonempty_line(&bytes) {
        None => {
            return Err(DecodeError::NoContent);
        },
        Some(line) => line,
    };
    let outer = match parse_json_bytes(&line) {
        None => {
            return Err(DecodeError::InvalidJson);
        },
        Some(outer) => outer,
    };
    let first = match outer.child(0) {
        None => {
            return Err(DecodeError::MissingPayload);
        },
        Some(first) => first,
    };
    let third = match first.child(2) {
        None => {
            return Err(DecodeError::MissingPayload);
        },
        Some(third) => third,
    };
    let payload_str = match third.str_value() {
        None => {
            return Err(DecodeError::MissingPayload);
        },
        Some(payload_str) => payload_str,
    };
    let payload_bytes = payload_str.as_str().as_bytes_vec();
    let payload = match parse_json_bytes(&payload_bytes) {
        None => {
            return Err(DecodeError::InvalidInnerJson);
        },
        Some(payload) => payload,
    };
    let n1 = match payload.child(1) {
        None => {
            return Err(DecodeError::MissingPath);
        },
        Some(n) => n,
    };
    let n2 = match n1.child(0) {
        None => {
            return Err(DecodeError::MissingPath);
        },
        Some(n) => n,
    };
    let n3 = match n2.child(0) {
        None => {
            return Err(DecodeError::MissingPath);
        },
        Some(n) => n,
    };
    let n4 = match n3.child(5) {
        None => {
            return Err(DecodeError::MissingPath);
        },
        Some(n) => n,
    };
    let n5 = match n4.child(0) {
        None => {
            return Err(DecodeError::MissingPath);
        },
        Some(n) => n,
    };
    let node = match n5.child(4) {
        None => {
            return Err(DecodeError::MissingPath);
        },
        Some(n) => n,
    };
    let entries = match node {
        Json::Arr(entries) => entries,
        _ => {
            return Err(DecodeError::UnexpectedShape);
        },
    };
    let mut segments: Vec<String> = Vec::new();
    let mut i: usize = 0;
    while i < entries.len()
        invariant
            i <= entries@.len(),
            m == decode_model(encode_utf8(raw@)),
            m == match segments_from(entries@, i as int) {
                None => Err::<Seq<String>, DecodeError>(DecodeError::UnexpectedShape),
                Some(rest) => Ok::<Seq<String>, DecodeError>(segments@ + rest),
            },
        decreases entries@.len() - i,
    {
        let entry_first = match entries[i].child(0) {
            None => {
                return Err(DecodeError::UnexpectedShape);
            },
            Some(f) => f,
        };
        match entry_first.str_value() {
            Some(s) => {
                proof {
                    if segments_from(entries@, i + 1 as int) is Some {
                        let rest = segments_from(entries@, i + 1 as int)->Some_0;
                        assert(segments@.push(*s) =~= segments@ + seq![*s]);
                        assert(segments@ + (seq![*s] + rest) =~= (segments@ + seq![*s]) + rest);
                    }
                }
                segments.push(s.clone());
            },
            None => {},
        }
        i = i + 1;
    }
    proof {
        assert(segments@ + Seq::<String>::empty() =~= segments@);
    }
    Ok(segments)
}

} // verus!
