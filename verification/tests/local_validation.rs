use gpttools::records::ApiKey;
use gpttools::validation::{
    resolve_effective_request_overrides, DEFAULT_ANTHROPIC_MODEL, DEFAULT_ANTHROPIC_REASONING,
    PROTOCOL_ANTHROPIC_NATIVE,
};

fn sample_api_key(protocol_type: &str, model_slug: Option<&str>, reasoning: Option<&str>) -> ApiKey {
    ApiKey {
        id: "gk_test".to_string(),
        name: Some("test".to_string()),
        model_slug: model_slug.map(|value| value.to_string()),
        reasoning_effort: reasoning.map(|value| value.to_string()),
        client_type: "codex".to_string(),
        protocol_type: protocol_type.to_string(),
        auth_scheme: "authorization_bearer".to_string(),
        upstream_base_url: None,
        static_headers_json: None,
        key_hash: "hash".to_string(),
        status: "active".to_string(),
        created_at: 0,
        last_used_at: None,
    }
}

#[test]
fn anthropic_key_uses_default_model_and_reasoning() {
    let api_key = sample_api_key(PROTOCOL_ANTHROPIC_NATIVE, None, None);
    let (model, reasoning) = resolve_effective_request_overrides(&api_key);
    assert_eq!(model.as_deref(), Some(DEFAULT_ANTHROPIC_MODEL));
    assert_eq!(reasoning.as_deref(), Some(DEFAULT_ANTHROPIC_REASONING));
}

#[test]
fn anthropic_key_keeps_custom_model_and_normalized_reasoning() {
    let api_key = sample_api_key(PROTOCOL_ANTHROPIC_NATIVE, Some("gpt-5.3-codex"), Some("extra_high"));
    let (model, reasoning) = resolve_effective_request_overrides(&api_key);
    assert_eq!(model.as_deref(), Some("gpt-5.3-codex"));
    assert_eq!(reasoning.as_deref(), Some("xhigh"));
}

#[test]
fn openai_key_keeps_empty_overrides() {
    let api_key = sample_api_key("openai_compat", None, None);
    let (model, reasoning) = resolve_effective_request_overrides(&api_key);
    assert_eq!(model, None);
    assert_eq!(reasoning, None);
}

#[test]
fn blank_model_and_unknown_effort_are_no_overrides() {
    let api_key = sample_api_key("openai_compat", Some("   "), Some("turbo"));
    let (model, reasoning) = resolve_effective_request_overrides(&api_key);
    assert_eq!(model, None);
    assert_eq!(reasoning, None);
    let api_key = sample_api_key(PROTOCOL_ANTHROPIC_NATIVE, Some(" gpt-x "), Some(" HIGH "));
    let (model, reasoning) = resolve_effective_request_overrides(&api_key);
    assert_eq!(model.as_deref(), Some("gpt-x"));
    assert_eq!(reasoning.as_deref(), Some("high"));
}
