//! Request encoder: builds the percent-encoded batched-execute body that
//! carries one translation request.
//!
//! The body is `f.req=<percent-encoded envelope>&`, where the envelope is a
//! JSON array holding the fixed RPC identifier and, as a JSON-encoded string,
//! the inner array `[[<text>,<source>,<target>,true],[1]]`. The text is
//! JSON-string-escaped once for the inner array, and the whole inner array is
//! escaped again when it is embedded in the envelope.

use vstd::prelude::*;
use vstd::string::StrSliceExecFns;
use vstd::utf8::encode_utf8;

use crate::lang::{wire_spec, LanguageCode};

verus! {

/// JSON string escaping of one byte: quotes and backslashes gain a leading
/// backslash, every other byte stays as it is.
pub open spec fn esc_byte(b: u8) -> Seq<u8> {
    if b == '"' as u8 {
        seq!['\\' as u8, '"' as u8]
    } else if b == '\\' as u8 {
        seq!['\\' as u8, '\\' as u8]
    } else {
        seq![b]
    }
}

/// JSON string escaping of a byte sequence.
pub open spec fn esc(s: Seq<u8>) -> Seq<u8>
    decreases s.len(),
{
    if s.len() == 0 {
        seq![]
    } else {
        esc_byte(s[0]) + esc(s.drop_first())
    }
}

/// The bytes that percent encoding leaves unchanged: ASCII alphanumerics and
/// `-`, `.`, `_`, `~`.
pub open spec fn is_unreserved(b: u8) -> bool {
    ||| '0' as u8 <= b <= '9' as u8
    ||| 'A' as u8 <= b <= 'Z' as u8
    ||| 'a' as u8 <= b <= 'z' as u8
    ||| b == '-' as u8
    ||| b == '.' as u8
    ||| b == '_' as u8
    ||| b == '~' as u8
}

/// The uppercase hexadecimal digit for a value below sixteen.
pub open spec fn hex_upper(d: u8) -> u8
    recommends
        d < 16,
{
    if d < 10 {
        ('0' as u8 + d) as u8
    } else {
        ('A' as u8 + (d - 10)) as u8
    }
}

/// Percent encoding of one byte: unreserved bytes stay, every other byte
/// becomes `%` followed by two uppercase hexadecimal digits.
pub open spec fn pct_byte(b: u8) -> Seq<u8> {
    if is_unreserved(b) {
        seq![b]
    } else {
        seq!['%' as u8, hex_upper((b / 16) as u8), hex_upper((b % 16) as u8)]
    }
}

/// Percent encoding of a byte sequence.
pub open spec fn pct(s: Seq<u8>) -> Seq<u8>
    decreases s.len(),
{
    if s.len() == 0 {
        seq![]
    } else {
        pct_byte(s[0]) + pct(s.drop_first())
    }
}

/// `[["` — the inner array up to the quoted text.
pub open spec fn lit_inner_open() -> Seq<u8> {
    seq!['[' as u8, '[' as u8, '"' as u8]
}

/// `","` — the separator between two quoted fields.
pub open spec fn lit_field_sep() -> Seq<u8> {
    seq!['"' as u8, ',' as u8, '"' as u8]
}

/// `",true],[1]]` — the tail of the inner array.
pub open spec fn lit_inner_close() -> Seq<u8> {
    seq![
        '"' as u8,
        ',' as u8,
        't' as u8,
        'r' as u8,
        'u' as u8,
        'e' as u8,
        ']' as u8,
        ',' as u8,
        '[' as u8,
        '1' as u8,
        ']' as u8,
        ']' as u8,
    ]
}

/// `[[["MkEWBc","` — the envelope up to the embedded inner array, carrying
/// the fixed identifier of the remote translation procedure.
pub open spec fn lit_outer_open() -> Seq<u8> {
    seq![
        '[' as u8,
        '[' as u8,
        '[' as u8,
        '"' as u8,
        'M' as u8,
        'k' as u8,
        'E' as u8,
        'W' as u8,
        'B' as u8,
        'c' as u8,
        '"' as u8,
        ',' as u8,
        '"' as u8,
    ]
}

/// `",null,"generic"]]]` — the tail of the envelope.
pub open spec fn lit_outer_close() -> Seq<u8> {
    seq![
        '"' as u8,
        ',' as u8,
        'n' as u8,
        'u' as u8,
        'l' as u8,
        'l' as u8,
        ',' as u8,
        '"' as u8,
        'g' as u8,
        'e' as u8,
        'n' as u8,
        'e' as u8,
        'r' as u8,
        'i' as u8,
        'c' as u8,
        '"' as u8,
        ']' as u8,
        ']' as u8,
        ']' as u8,
    ]
}

/// `f.req=` — the form field that carries the envelope.
pub open spec fn lit_body_prefix() -> Seq<u8> {
    seq!['f' as u8, '.' as u8, 'r' as u8, 'e' as u8, 'q' as u8, '=' as u8]
}

/// The inner array `[[<text>,<source>,<target>,true],[1]]` with the text
/// escaped once.
pub open spec fn inner_model(text_bytes: Seq<u8>, source: LanguageCode, target: LanguageCode) -> Seq<
    u8,
> {
    lit_inner_open() + esc(text_bytes) + lit_field_sep() + encode_utf8(wire_spec(source))
        + lit_field_sep() + encode_utf8(wire_spec(target)) + lit_inner_close()
}

/// The envelope `[[["MkEWBc","<inner>",null,"generic"]]]` with the inner
/// array escaped for its embedding as a JSON string.
pub open spec fn envelope_model(text_bytes: Seq<u8>, source: LanguageCode, target: LanguageCode) -> Seq<
    u8,
> {
    lit_outer_open() + esc(inner_model(text_bytes, source, target)) + lit_outer_close()
}

/// The full request body `f.req=<percent-encoded envelope>&`.
pub open spec fn body_model(text_bytes: Seq<u8>, source: LanguageCode, target: LanguageCode) -> Seq<
    u8,
> {
    lit_body_prefix() + pct(envelope_model(text_bytes, source, target)) + seq!['&' as u8]
}

proof fn lemma_esc_snoc(s: Seq<u8>, b: u8)
    ensures
        esc(s.push(b)) == esc(s) + esc_byte(b),
    decreases s.len(),
{
    if s.len() == 0 {
        let t = s.push(b);
        assert(t[0] == b);
        assert(t.drop_first() =~= Seq::<u8>::empty());
        assert(esc(t) == esc_byte(b) + esc(t.drop_first()));
        assert(esc(t.drop_first()) =~= Seq::<u8>::empty());
        assert(esc(s.push(b)) =~= esc(s) + esc_byte(b));
    } else {
        assert(s.push(b).drop_first() =~= s.drop_first().push(b));
        lemma_esc_snoc(s.drop_first(), b);
        assert(esc(s.push(b)) =~= esc(s) + esc_byte(b));
    }
}

/// Appends the bytes of `src` to `out`, unchanged.
fn append_bytes(out: &mut Vec<u8>, src: &Vec<u8>)
    ensures
        final(out)@ == old(out)@ + src@,
{
    let ghost start = out@;
    let mut i: usize = 0;
    while i < src.len()
        invariant
            i <= src@.len(),
            out@ == start + src@.take(i as int),
        decreases src@.len() - i,
    {
        proof {
            assert(src@.take(i + 1 as int) =~= src@.take(i as int).push(src@[i as int]));
        }
        out.push(src[i]);
        i += 1;
    }
    proof {
        assert(src@.take(src@.len() as int) =~= src@);
    }
}

/// Appends the JSON-string-escaped bytes of `src` to `out`.
fn append_escaped(out: &mut Vec<u8>, src: &Vec<u8>)
    ensures
        final(out)@ == old(out)@ + esc(src@),
{
    let ghost start = out@;
    let mut i: usize = 0;
    while i < src.len()
        invariant
            i <= src@.len(),
            out@ == start + esc(src@.take(i as int)),
        decreases src@.len() - i,
    {
        let b = src[i];
        if b == '"' as u8 {
            out.push('\\' as u8);
            out.push('"' as u8);
        } else if b == '\\' as u8 {
            out.push('\\' as u8);
            out.push('\\' as u8);
        } else {
            out.push(b);
        }
        proof {
            assert(src@.take(i + 1 as int) =~= src@.take(i as int).push(src@[i as int]));
            lemma_esc_snoc(src@.take(i as int), src@[i as int]);
            assert(out@ =~= start + esc(src@.take(i + 1 as int)));
        }
        i += 1;
    }
    proof {
        assert(src@.take(src@.len() as int) =~= src@);
    }
}

/// Relies on urlencoding::encode_binary: percent-encodes every byte except
/// ASCII alphanumerics and `-`, `.`, `_`, `~`, writing `%` and two uppercase
/// hexadecimal digits for each encoded byte.
#[verifier::external_body]
fn percent_encode(b: &Vec<u8>) -> (r: Vec<u8>)
    ensures
        r@ == pct(b@),
{
    urlencoding::encode_binary(b.as_slice()).into_owned().into_bytes()
}

/// Builds the transport body for one translation request. Encoding never
/// fails and is deterministic: the result is a function of the text's UTF-8
/// bytes and the two language codes alone.
pub fn encode_request(text: &str, source_language: LanguageCode, target_language: LanguageCode) -> (r:
    Vec<u8>)
    ensures
        r@ == body_model(encode_utf8(text@), source_language, target_language),
{
    let text_bytes = text.as_bytes_vec();
    let source_bytes = source_language.wire_form().as_bytes_vec();
    let target_bytes = target_language.wire_form().as_bytes_vec();

    let mut inner: Vec<u8> = Vec::new();
    inner.push('[' as u8);
    inner.push('[' as u8);
    inner.push('"' as u8);
    assert(inner@ =~= lit_inner_open());
    append_escaped(&mut inner, &text_bytes);
    push_field_sep(&mut inner);
    append_bytes(&mut inner, &source_bytes);
    push_field_sep(&mut inner);
    append_bytes(&mut inner, &target_bytes);
    push_inner_close(&mut inner);
    assert(inner@ =~= inner_model(encode_utf8(text@), source_language, target_language));

    let mut envelope: Vec<u8> = Vec::new();
    push_outer_open(&mut envelope);
    append_escaped(&mut envelope, &inner);
    push_outer_close(&mut envelope);
    assert(envelope@ =~= envelope_model(encode_utf8(text@), source_language, target_language));

    let encoded = percent_encode(&envelope);
    let mut body: Vec<u8> = Vec::new();
    body.push('f' as u8);
    body.push('.' as u8);
    body.push('r' as u8);
    body.push('e' as u8);
    body.push('q' as u8);
    body.push('=' as u8);
    assert(body@ =~= lit_body_prefix());
    append_bytes(&mut body, &encoded);
    body.push('&' as u8);
    assert(body@ =~= body_model(encode_utf8(text@), source_language, target_language));
    body
}

fn push_field_sep(out: &mut Vec<u8>)
    ensures
        final(out)@ == old(out)@ + lit_field_sep(),
{
    out.push('"' as u8);
    out.push(',' as u8);
    out.push('"' as u8);
    assert(out@ =~= old(out)@ + lit_field_sep());
}

fn push_inner_close(out: &mut Vec<u8>)
    ensures
        final(out)@ == old(out)@ + lit_inner_close(),
{
    out.push('"' as u8);
    out.push(',' as u8);
    out.push('t' as u8);
    out.push('r' as u8);
    out.push('u' as u8);
    out.push('e' as u8);
    out.push(']' as u8);
    out.push(',' as u8);
    out.push('[' as u8);
    out.push('1' as u8);
    out.push(']' as u8);
    out.push(']' as u8);
    assert(out@ =~= old(out)@ + lit_inner_close());
}

fn push_outer_open(out: &mut Vec<u8>)
    ensures
        final(out)@ == old(out)@ + lit_outer_open(),
{
    out.push('[' as u8);
    out.push('[' as u8);
    out.push('[' as u8);
    out.push('"' as u8);
    out.push('M' as u8);
    out.push('k' as u8);
    out.push('E' as u8);
    out.push('W' as u8);
    out.push('B' as u8);
    out.push('c' as u8);
    out.push('"' as u8);
    out.push(',' as u8);
    out.push('"' as u8);
    assert(out@ =~= old(out)@ + lit_outer_open());
}

fn push_outer_close(out: &mut Vec<u8>)
    ensures
        final(out)@ == old(out)@ + lit_outer_close(),
{
    out.push('"' as u8);
    out.push(',' as u8);
    out.push('n' as u8);
    out.push('u' as u8);
    out.push('l' as u8);
    out.push('l' as u8);
    out.push(',' as u8);
    out.push('"' as u8);
    out.push('g' as u8);
    out.push('e' as u8);
    out.push('n' as u8);
    out.push('e' as u8);
    out.push('r' as u8);
    out.push('i' as u8);
    out.push('c' as u8);
    out.push('"' as u8);
    out.push(']' as u8);
    out.push(']' as u8);
    out.push(']' as u8);
    assert(out@ =~= old(out)@ + lit_outer_close());
}

/// Encoding is deterministic: for one text and one language pair there is
/// exactly one request body, so two encodings of the same valid input are
/// byte-identical.
pub proof fn lemma_encode_deterministic(
    text: Seq<char>,
    source: LanguageCode,
    target: LanguageCode,
    r1: Seq<u8>,
    r2: Seq<u8>,
)
    requires
        1 <= encode_utf8(text).len() <= 5000,
        r1 == body_model(encode_utf8(text), source, target),
        r2 == body_model(encode_utf8(text), source, target),
    ensures
        r1 == r2,
{
}

} // verus!
