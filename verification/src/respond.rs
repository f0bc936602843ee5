//! The answer to the client where the upstream answer is converted first.

use vstd::prelude::*;
use vstd::string::{StrSliceExecFns, StringExecFns};
use vstd::utf8::encode_utf8;
use crate::headers::{
    filter_response_headers, is_ascii_bytes, is_ascii_text, response_header_accepted,
    response_view, returned_upto, ResponseAdapter,
};
use crate::json::{empty_object, encode_document, with_member, JsonDoc, JsonModel};
use crate::overrides::written_or;

verus! {

/// The error of the Anthropic format for a message: an object of type
/// `error` whose member `error` is an object of type `api_error` with the
/// message.
pub open spec fn anthropic_error(message: Seq<char>) -> JsonModel {
    with_member(
        with_member(empty_object(), "type"@, JsonModel::Text("error"@)),
        "error"@,
        with_member(
            with_member(empty_object(), "type"@, JsonModel::Text("api_error"@)),
            "message"@,
            JsonModel::Text(message),
        ),
    )
}

/// The error document of the Anthropic format for a message.
pub fn anthropic_error_document(message: &str) -> (out: JsonDoc)
    ensures
        out@ == anthropic_error(message@),
{
    let detail = JsonDoc::object().with("type", JsonDoc::text("api_error")).with(
        "message",
        JsonDoc::text(message),
    );
    JsonDoc::object().with("type", JsonDoc::text("error")).with("error", detail)
}

/// The body of an error answer in the Anthropic format; empty where the
/// document cannot be written.
pub fn build_anthropic_error_body(message: &str) -> (out: Vec<u8>)
    ensures
        out@ == written_or(anthropic_error(message@), Seq::empty()),
{
    let doc = anthropic_error_document(message);
    match encode_document(&doc) {
        Some(bytes) => bytes,
        None => Vec::new(),
    }
}

/// The answer that goes to the client after conversion.
#[derive(Debug)]
pub struct ConvertedResponse {
    pub headers: Vec<(String, Vec<u8>)>,
    pub body: Vec<u8>,
}

/// The content type header of a converted answer, which it has where the
/// content type is ASCII.
pub open spec fn content_type_header(content_type: Seq<char>) -> Seq<(Seq<char>, Seq<u8>)> {
    if is_ascii_bytes(encode_utf8(content_type)) {
        seq![("Content-Type"@, encode_utf8(content_type))]
    } else {
        Seq::empty()
    }
}

/// Puts together the answer to the client from the upstream headers and the
/// outcome of the conversion of the body. The headers are those of the
/// upstream answer that are handed back, then the content type of the
/// conversion. A failed conversion gives an error body in the Anthropic
/// format, of content type `application/json`, that names the failure.
pub fn converted_response(
    adapter: ResponseAdapter,
    upstream_headers: &Vec<(String, Vec<u8>)>,
    conversion: Result<(Vec<u8>, String), String>,
) -> (out: ConvertedResponse)
    ensures
        match conversion {
            Ok(converted) => {
                &&& out.body@ == converted.0@
                &&& response_view(out.headers@) == returned_upto(
                    response_view(upstream_headers@),
                    adapter,
                    upstream_headers.len() as int,
                ) + content_type_header(converted.1@)
            },
            Err(failure) => {
                &&& out.body@ == written_or(
                    anthropic_error("response conversion failed: "@ + failure@),
                    Seq::empty(),
                )
                &&& response_view(out.headers@) == returned_upto(
                    response_view(upstream_headers@),
                    adapter,
                    upstream_headers.len() as int,
                ) + content_type_header("application/json"@)
            },
        },
{
    let mut headers = filter_response_headers(upstream_headers, adapter);
    let ghost kept = response_view(headers@);
    proof {
        reveal_strlit("Content-Type");
        assert(is_ascii_text("Content-Type"@));
    }
    match conversion {
        Ok((body, content_type)) => {
            let value = content_type.as_str().as_bytes_vec();
            if response_header_accepted("Content-Type", value.as_slice()) {
                headers.push(("Content-Type".to_string(), value));
                assert(response_view(headers@) =~= kept + seq![("Content-Type"@, value@)]);
            } else {
                assert(response_view(headers@) =~= kept + Seq::empty());
            }
            ConvertedResponse { headers, body }
        },
        Err(failure) => {
            let mut message = "response conversion failed: ".to_string();
            message.append(failure.as_str());
            let body = build_anthropic_error_body(message.as_str());
            let value = "application/json".as_bytes_vec();
            if response_header_accepted("Content-Type", value.as_slice()) {
                headers.push(("Content-Type".to_string(), value));
                assert(response_view(headers@) =~= kept + seq![("Content-Type"@, value@)]);
            } else {
                assert(response_view(headers@) =~= kept + Seq::empty());
            }
            ConvertedResponse { headers, body }
        },
    }
}

} // verus!
