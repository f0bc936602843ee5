//! The checks that a request passes before the gateway looks for an
//! account: its platform key, and the request that goes upstream for it.

use vstd::prelude::*;
use vstd::slice::slice_subrange;
use crate::headers::{is_method_text, method_accepted, pairs_view, ResponseAdapter};
use crate::overrides::{
    apply_request_overrides, effort_in_force, extract_request_model,
    extract_request_reasoning_effort, extract_request_stream, normalize_reasoning_effort,
    overridden_body, request_effort, request_model, request_stream,
};
use crate::records::{clone_text, ApiKey};
use crate::text::{
    chars_of, eq_ignore_case, has_prefix, is_prefix_of, nonblank, nonblank_text, owned_view,
    slice_view, str_eq, str_eq_ignore_case, text_between, trim_range, trimmed,
};

verus! {

/// The protocol of a platform key whose clients speak the Anthropic format.
pub const PROTOCOL_ANTHROPIC_NATIVE: &'static str = "anthropic_native";

/// The model of an Anthropic-format key that names none.
pub const DEFAULT_ANTHROPIC_MODEL: &'static str = "gpt-5.3-codex";

/// The reasoning effort of an Anthropic-format key that names none.
pub const DEFAULT_ANTHROPIC_REASONING: &'static str = "high";

/// The platform key that the headers from position `i` on present: the
/// first `Authorization` header with a `Bearer ` value, or the first
/// `x-api-key` header, whichever comes first, trimmed.
pub open spec fn platform_key_from(headers: Seq<(Seq<char>, Seq<char>)>, i: int) -> Option<
    Seq<char>,
>
    decreases headers.len() - i,
{
    if i < 0 || i >= headers.len() {
        None
    } else {
        let name = headers[i].0;
        let value = headers[i].1;
        if eq_ignore_case(name, "Authorization"@) && is_prefix_of("Bearer "@, value) {
            Some(trimmed(value.subrange(7, value.len() as int)))
        } else if eq_ignore_case(name, "x-api-key"@) {
            Some(trimmed(value))
        } else {
            platform_key_from(headers, i + 1)
        }
    }
}

/// Takes the platform key from the headers of a request.
pub fn extract_platform_key(headers: &Vec<(String, String)>) -> (out: Option<String>)
    ensures
        owned_view(out) == platform_key_from(pairs_view(headers@), 0),
{
    let ghost source = pairs_view(headers@);
    let bearer = chars_of("Bearer ");
    proof {
        reveal_strlit("Bearer ");
    }
    let mut i: usize = 0;
    while i < headers.len()
        invariant
            i <= headers.len(),
            source == pairs_view(headers@),
            bearer@ == "Bearer "@,
            bearer@.len() == 7,
            platform_key_from(source, 0) == platform_key_from(source, i as int),
        decreases headers.len() - i,
    {
        let name = headers[i].0.as_str();
        let value = headers[i].1.as_str();
        assert(source[i as int] == (name@, value@));
        if str_eq_ignore_case(name, "Authorization") {
            let chars = chars_of(value);
            if has_prefix(chars.as_slice(), bearer.as_slice()) {
                let rest = slice_subrange(chars.as_slice(), 7, chars.len());
                let (from, to) = trim_range(rest);
                return Some(text_between(rest, from, to));
            }
        }
        if str_eq_ignore_case(name, "x-api-key") {
            let chars = chars_of(value);
            let (from, to) = trim_range(chars.as_slice());
            return Some(text_between(chars.as_slice(), from, to));
        }
        i += 1;
    }
    None
}

/// Why the gateway turns a request away before it goes upstream.
#[derive(Debug)]
pub struct LocalValidationError {
    pub status_code: u16,
    pub message: String,
}

/// The status with which a presented key is turned away, if it is: 401
/// where no key is presented or the presented one is unknown, 403 where the
/// key is not active.
pub open spec fn key_refusal(presented: bool, found: Option<ApiKey>) -> Option<u16> {
    if !presented {
        Some(401u16)
    } else {
        match found {
            None => Some(401u16),
            Some(key) => if key.status@ == "active"@ {
                None
            } else {
                Some(403u16)
            },
        }
    }
}

/// Admits a request by its platform key: `presented` says whether the
/// request carried a key, `found` is the stored key with that key's hash.
pub fn validate_platform_key(presented: bool, found: Option<ApiKey>) -> (out: Result<
    ApiKey,
    LocalValidationError,
>)
    ensures
        match out {
            Ok(key) => key_refusal(presented, found) is None && found == Some(key),
            Err(error) => key_refusal(presented, found) == Some(error.status_code) && error.message@
                == (if !presented {
                "missing api key"@
            } else if found is None {
                "invalid api key"@
            } else {
                "api key disabled"@
            }),
        },
{
    if !presented {
        return Err(
            LocalValidationError { status_code: 401, message: "missing api key".to_string() },
        );
    }
    match found {
        None => Err(
            LocalValidationError { status_code: 401, message: "invalid api key".to_string() },
        ),
        Some(key) => {
            if str_eq(key.status.as_str(), "active") {
                Ok(key)
            } else {
                Err(
                    LocalValidationError {
                        status_code: 403,
                        message: "api key disabled".to_string(),
                    },
                )
            }
        },
    }
}

/// The model override of a key: its model unless blank, and for an
/// Anthropic-format key without one the default model.
pub open spec fn effective_model(key: ApiKey) -> Option<Seq<char>> {
    let own = nonblank(owned_view(key.model_slug));
    if key.protocol_type@ == PROTOCOL_ANTHROPIC_NATIVE@ && own is None {
        Some(DEFAULT_ANTHROPIC_MODEL@)
    } else {
        own
    }
}

/// The effort override of a key: the canonical name of its effort, and for
/// an Anthropic-format key without one the default effort.
pub open spec fn effective_effort(key: ApiKey) -> Option<Seq<char>> {
    let own = effort_in_force(owned_view(key.reasoning_effort));
    if key.protocol_type@ == PROTOCOL_ANTHROPIC_NATIVE@ && own is None {
        Some(DEFAULT_ANTHROPIC_REASONING@)
    } else {
        own
    }
}

/// The overrides that a key lays over its requests: model and effort.
pub fn resolve_effective_request_overrides(api_key: &ApiKey) -> (out: (
    Option<String>,
    Option<String>,
))
    ensures
        owned_view(out.0) == effective_model(*api_key),
        owned_view(out.1) == effective_effort(*api_key),
{
    let model_raw = match &api_key.model_slug {
        Some(m) => Some(m.as_str()),
        None => None,
    };
    let normalized_model = nonblank_text(model_raw);
    let normalized_reasoning = match &api_key.reasoning_effort {
        Some(raw) => match normalize_reasoning_effort(raw.as_str()) {
            Some(name) => Some(name.to_string()),
            None => None,
        },
        None => None,
    };
    if str_eq(api_key.protocol_type.as_str(), PROTOCOL_ANTHROPIC_NATIVE) {
        let model = match normalized_model {
            Some(m) => Some(m),
            None => Some(DEFAULT_ANTHROPIC_MODEL.to_string()),
        };
        let reasoning = match normalized_reasoning {
            Some(r) => Some(r),
            None => Some(DEFAULT_ANTHROPIC_REASONING.to_string()),
        };
        return (model, reasoning);
    }
    (normalized_model, normalized_reasoning)
}

/// A request as its protocol adapter hands it on.
#[derive(Debug)]
pub struct AdaptedRequest {
    pub path: String,
    pub body: Vec<u8>,
    pub response_adapter: ResponseAdapter,
}

/// A request that has passed the local checks, as it goes upstream.
#[derive(Debug)]
pub struct LocalValidationResult {
    pub path: String,
    pub body: Vec<u8>,
    pub is_stream: bool,
    pub response_adapter: ResponseAdapter,
    pub request_method: String,
    pub key_id: String,
    pub model_for_log: Option<String>,
    pub reasoning_for_log: Option<String>,
}

/// The first of two optional texts that is there.
pub open spec fn first_of(first: Option<Seq<char>>, second: Option<Seq<char>>) -> Option<Seq<char>> {
    if first is Some {
        first
    } else {
        second
    }
}

/// The request `result` is what goes upstream for the adapted request under
/// the key: the adapter's path and answer mode, the body with the key's
/// overrides, and, for the request log, the model and effort that the body
/// names or else those of the key, and whether the body asks for a stream.
pub open spec fn validated_as(
    result: LocalValidationResult,
    method: Seq<char>,
    adapted: AdaptedRequest,
    key: ApiKey,
) -> bool {
    &&& result.path@ == adapted.path@
    &&& result.body@ == overridden_body(adapted.body@, effective_model(key), effective_effort(key))
    &&& result.response_adapter == adapted.response_adapter
    &&& result.request_method@ == method
    &&& result.key_id@ == key.id@
    &&& owned_view(result.model_for_log) == first_of(
        request_model(result.body@),
        owned_view(key.model_slug),
    )
    &&& owned_view(result.reasoning_for_log) == first_of(
        request_effort(result.body@),
        owned_view(key.reasoning_effort),
    )
    &&& result.is_stream == (request_stream(result.body@) == Some(true))
}

/// Prepares the upstream request of an admitted key. An adapter error turns
/// the request away with 400 and the adapter's message; a method that is no
/// token, and so cannot be sent, turns it away with 405.
pub fn build_local_validation_result(
    request_method: &str,
    adapted: Result<AdaptedRequest, String>,
    api_key: &ApiKey,
) -> (out: Result<LocalValidationResult, LocalValidationError>)
    ensures
        match out {
            Ok(result) => adapted is Ok && is_method_text(request_method@) && validated_as(
                result,
                request_method@,
                adapted->Ok_0,
                *api_key,
            ),
            Err(error) => match adapted {
                Err(message) => error.status_code == 400 && error.message@ == message@,
                Ok(_) => !is_method_text(request_method@) && error.status_code == 405
                    && error.message@ == "unsupported method"@,
            },
        },
{
    let adapted = match adapted {
        Ok(adapted) => adapted,
        Err(message) => {
            return Err(LocalValidationError { status_code: 400, message });
        },
    };
    let ghost given = adapted;
    let (model_override, effort_override) = resolve_effective_request_overrides(api_key);
    let model_text = match &model_override {
        Some(m) => Some(m.as_str()),
        None => None,
    };
    let reasoning_text = match &effort_override {
        Some(r) => Some(r.as_str()),
        None => None,
    };
    assert(slice_view(model_text) == effective_model(*api_key));
    assert(slice_view(reasoning_text) == effective_effort(*api_key));
    let path = adapted.path;
    let body = apply_request_overrides(path.as_str(), adapted.body, model_text, reasoning_text);
    if !method_accepted(request_method) {
        return Err(
            LocalValidationError { status_code: 405, message: "unsupported method".to_string() },
        );
    }
    let model_for_log = match extract_request_model(body.as_slice()) {
        Some(m) => Some(m),
        None => clone_text(&api_key.model_slug),
    };
    let reasoning_for_log = match extract_request_reasoning_effort(body.as_slice()) {
        Some(r) => Some(r),
        None => clone_text(&api_key.reasoning_effort),
    };
    let is_stream = match extract_request_stream(body.as_slice()) {
        Some(flag) => flag,
        None => false,
    };
    let result = LocalValidationResult {
        path,
        body,
        is_stream,
        response_adapter: adapted.response_adapter,
        request_method: request_method.to_string(),
        key_id: api_key.id.clone(),
        model_for_log,
        reasoning_for_log,
    };
    assert(validated_as(result, request_method@, given, *api_key));
    Ok(result)
}

} // verus!
