use gpttools::headers::ResponseAdapter;
use gpttools::records::ApiKey;
use gpttools::validation::{
    build_local_validation_result, extract_platform_key, validate_platform_key, AdaptedRequest,
};

fn headers(pairs: &[(&str, &str)]) -> Vec<(String, String)> {
    pairs.iter().map(|(n, v)| (n.to_string(), v.to_string())).collect()
}

fn key(status: &str, protocol: &str, model: Option<&str>, effort: Option<&str>) -> ApiKey {
    ApiKey {
        id: "gk_1".to_string(),
        name: None,
        model_slug: model.map(str::to_string),
        reasoning_effort: effort.map(str::to_string),
        client_type: "codex".to_string(),
        protocol_type: protocol.to_string(),
        auth_scheme: "authorization_bearer".to_string(),
        upstream_base_url: None,
        static_headers_json: None,
        key_hash: "hash".to_string(),
        status: status.to_string(),
        created_at: 1,
        last_used_at: None,
    }
}

#[test]
fn platform_key_comes_from_bearer_or_api_key_header() {
    assert_eq!(
        extract_platform_key(&headers(&[("authorization", "Bearer  sk-1 ")])).as_deref(),
        Some("sk-1")
    );
    assert_eq!(
        extract_platform_key(&headers(&[("X-API-Key", " sk-2 ")])).as_deref(),
        Some("sk-2")
    );
    assert_eq!(
        extract_platform_key(&headers(&[
            ("Authorization", "Basic abc"),
            ("Accept", "*/*"),
            ("x-api-key", "sk-3"),
            ("Authorization", "Bearer sk-4"),
        ]))
        .as_deref(),
        Some("sk-3")
    );
    assert_eq!(
        extract_platform_key(&headers(&[("Authorization", "bearer sk-5")])),
        None
    );
    assert_eq!(
        extract_platform_key(&headers(&[("Authorization", "Bearer ")])).as_deref(),
        Some("")
    );
}

#[test]
fn missing_platform_key_is_turned_away_with_401() {
    let presented = extract_platform_key(&headers(&[("Content-Type", "application/json")]));
    assert_eq!(presented, None);
    let error = validate_platform_key(presented.is_some(), None).expect_err("refused");
    assert_eq!(error.status_code, 401);
    assert_eq!(error.message, "missing api key");
}

#[test]
fn unknown_and_disabled_keys_are_turned_away() {
    let error = validate_platform_key(true, None).expect_err("refused");
    assert_eq!(error.status_code, 401);
    assert_eq!(error.message, "invalid api key");
    let error = validate_platform_key(true, Some(key("inactive", "openai_compat", None, None)))
        .expect_err("refused");
    assert_eq!(error.status_code, 403);
    assert_eq!(error.message, "api key disabled");
    let error = validate_platform_key(true, Some(key("Active", "openai_compat", None, None)))
        .expect_err("refused");
    assert_eq!(error.status_code, 403);
    let admitted = validate_platform_key(true, Some(key("active", "openai_compat", None, None)))
        .expect("admitted");
    assert_eq!(admitted.id, "gk_1");
}

#[test]
fn adapter_error_is_a_400() {
    let error = build_local_validation_result(
        "POST",
        Err("bad anthropic request".to_string()),
        &key("active", "anthropic_native", None, None),
    )
    .expect_err("refused");
    assert_eq!(error.status_code, 400);
    assert_eq!(error.message, "bad anthropic request");
}

#[test]
fn unsendable_method_is_a_405() {
    let adapted = AdaptedRequest {
        path: "/v1/responses".to_string(),
        body: Vec::new(),
        response_adapter: ResponseAdapter::Passthrough,
    };
    let error = build_local_validation_result(
        "GE T",
        Ok(adapted),
        &key("active", "openai_compat", None, None),
    )
    .expect_err("refused");
    assert_eq!(error.status_code, 405);
    assert_eq!(error.message, "unsupported method");
}

#[test]
fn methods_are_tokens() {
    let key = key("active", "openai_compat", None, None);
    for (method, sent) in [
        ("GET", true),
        ("get", true),
        ("PROPFIND", true),
        ("M-SEARCH", true),
        ("A_VERY_LONG_EXTENSION_METHOD_NAME", true),
        ("!#$%&'*+-.^_`|~09azAZ", true),
        ("", false),
        ("GE T", false),
        ("GET/", false),
        ("G\"T", false),
        ("G(T", false),
        ("G:T", false),
        ("G@T", false),
        ("G[T", false),
        ("G{T", false),
        ("G}T", false),
        ("G\u{7f}T", false),
        ("GÉT", false),
    ] {
        let adapted = AdaptedRequest {
            path: "/v1/responses".to_string(),
            body: Vec::new(),
            response_adapter: ResponseAdapter::Passthrough,
        };
        let out = build_local_validation_result(method, Ok(adapted), &key);
        assert_eq!(out.is_ok(), sent, "method {method:?}");
        if let Err(error) = out {
            assert_eq!(error.status_code, 405);
        }
    }
}

#[test]
fn validated_request_carries_overrides_and_log_fields() {
    let adapted = AdaptedRequest {
        path: "/v1/responses".to_string(),
        body: br#"{"model":"x","stream":true}"#.to_vec(),
        response_adapter: ResponseAdapter::AnthropicSse,
    };
    let result = build_local_validation_result(
        "POST",
        Ok(adapted),
        &key("active", "anthropic_native", None, Some("extra_high")),
    )
    .expect("validated");
    assert_eq!(result.path, "/v1/responses");
    assert_eq!(result.request_method, "POST");
    assert_eq!(result.key_id, "gk_1");
    assert_eq!(result.response_adapter, ResponseAdapter::AnthropicSse);
    assert!(result.is_stream);
    assert_eq!(result.model_for_log.as_deref(), Some("gpt-5.3-codex"));
    assert_eq!(result.reasoning_for_log.as_deref(), Some("xhigh"));
    let value: serde_json::Value = serde_json::from_slice(&result.body).expect("json");
    assert_eq!(value["model"], "gpt-5.3-codex");
    assert_eq!(value["reasoning"]["effort"], "xhigh");
    assert_eq!(value["stream"], true);
}

#[test]
fn log_fields_fall_back_to_the_key() {
    let adapted = AdaptedRequest {
        path: "/v1/models?client_version=0.98.0".to_string(),
        body: Vec::new(),
        response_adapter: ResponseAdapter::Passthrough,
    };
    let result = build_local_validation_result(
        "GET",
        Ok(adapted),
        &key("active", "openai_compat", Some("gpt-5"), Some("weird")),
    )
    .expect("validated");
    assert!(result.body.is_empty());
    assert!(!result.is_stream);
    assert_eq!(result.model_for_log.as_deref(), Some("gpt-5"));
    assert_eq!(result.reasoning_for_log.as_deref(), Some("weird"));
}
