//! The two request handlers: a fixed plain-text welcome line and a fixed
//! JSON greeting. Both are pure and total: no request state is read, and
//! the body bytes are the same on every call.

use vstd::prelude::*;
use vstd::string::StrSliceExecFns;
use vstd::string::StringSliceAdditionalSpecFns;
use vstd::utf8::encode_utf8;
use vstd::utf8::is_ascii_chars;
use vstd::utf8::is_ascii_chars_encode_utf8;

use crate::http::ContentType;
use crate::http::Response;
use crate::json;

verus! {

/// The greeting payload before serialization: a single `message` field.
pub struct GreetingResponse {
    pub message: String,
}

/// The UTF-8 bytes of the root response body.
pub open spec fn root_body() -> Seq<u8> {
    "Welcome to your Axum API!".spec_bytes()
}

/// The UTF-8 bytes of the greeting response body: the JSON object
/// `{"message":"Hello from Axum!"}`.
pub open spec fn hello_body() -> Seq<u8> {
    json::json_object_single("message".spec_bytes(), "Hello from Axum!".spec_bytes())
}

/// The greeting body is, byte for byte, the literal `{"message":"Hello from Axum!"}`:
/// a JSON object with exactly one member, `message`, whose value is
/// `Hello from Axum!`.
pub proof fn lemma_hello_body_is_literal()
    ensures
        hello_body() == "{\"message\":\"Hello from Axum!\"}".spec_bytes(),
{
    reveal_strlit("message");
    reveal_strlit("Hello from Axum!");
    reveal_strlit("{\"message\":\"Hello from Axum!\"}");
    let k = "message"@;
    let v = "Hello from Axum!"@;
    let w = "{\"message\":\"Hello from Axum!\"}"@;
    assert(is_ascii_chars(k));
    assert(is_ascii_chars(v));
    assert(is_ascii_chars(w));
    is_ascii_chars_encode_utf8(k);
    is_ascii_chars_encode_utf8(v);
    is_ascii_chars_encode_utf8(w);
    let kb = encode_utf8(k);
    let vb = encode_utf8(v);
    let wb = encode_utf8(w);
    assert(forall|i: int| 0 <= i < kb.len() ==> json::is_plain_byte(#[trigger] kb[i]));
    assert(forall|i: int| 0 <= i < vb.len() ==> json::is_plain_byte(#[trigger] vb[i]));
    json::lemma_json_escaped_plain(kb);
    json::lemma_json_escaped_plain(vb);
    assert(hello_body() =~= wb);
}

/// Serves the fixed welcome line as plain text.
pub fn root_handler() -> (r: Response)
    ensures
        r.content_type == ContentType::TextPlain,
        r.body@ == root_body(),
{
    Response { content_type: ContentType::TextPlain, body: "Welcome to your Axum API!".as_bytes_vec() }
}

/// Serves the fixed greeting, serialized as a one-member JSON object.
pub fn hello_handler() -> (r: Response)
    ensures
        r.content_type == ContentType::ApplicationJson,
        r.body@ == hello_body(),
{
    let greeting = GreetingResponse { message: "Hello from Axum!".to_owned() };
    let body = json::encode_single_field_object(
        "message".as_bytes(),
        greeting.message.as_str().as_bytes(),
    );
    Response { content_type: ContentType::ApplicationJson, body }
}

} // verus!
