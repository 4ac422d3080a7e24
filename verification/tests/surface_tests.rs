use nemo_relay::json::{members_contain_key, str_eq};
use nemo_relay::{
    detect_request_surface, detect_request_surface_with_hint, detect_response_surface,
    normalize_request, normalize_request_with, normalize_response, normalize_response_with, Json,
    LlmRequest, ProviderSurface,
};

fn object(keys: &[&str]) -> Json {
    Json::Object(
        keys.iter()
            .map(|k| (k.to_string(), Json::String("x".to_string())))
            .collect(),
    )
}

#[test]
fn responses_keys_classify_as_openai_responses() {
    assert_eq!(
        detect_request_surface(&object(&["model", "input"])),
        Some(ProviderSurface::OpenAIResponses)
    );
    assert_eq!(
        detect_request_surface(&object(&["instructions"])),
        Some(ProviderSurface::OpenAIResponses)
    );
}

#[test]
fn responses_outrank_anthropic_and_chat() {
    assert_eq!(
        detect_request_surface(&object(&["messages", "system", "input"])),
        Some(ProviderSurface::OpenAIResponses)
    );
}

#[test]
fn system_key_classifies_as_anthropic_over_chat() {
    assert_eq!(
        detect_request_surface(&object(&["messages", "system"])),
        Some(ProviderSurface::AnthropicMessages)
    );
}

#[test]
fn anthropic_request_without_system_reads_as_chat() {
    let body = object(&["model", "messages", "max_tokens"]);
    assert_eq!(detect_request_surface(&body), Some(ProviderSurface::OpenAIChat));
}

#[test]
fn anthropic_hint_resolves_ambiguous_shape() {
    let body = object(&["model", "messages", "max_tokens"]);
    assert_eq!(
        detect_request_surface_with_hint(&body, Some("anthropic")),
        Some(ProviderSurface::AnthropicMessages)
    );
}

#[test]
fn other_hints_are_ignored() {
    let body = object(&["messages"]);
    assert_eq!(
        detect_request_surface_with_hint(&body, Some("openai")),
        Some(ProviderSurface::OpenAIChat)
    );
    assert_eq!(
        detect_request_surface_with_hint(&body, Some("Anthropic")),
        Some(ProviderSurface::OpenAIChat)
    );
    assert_eq!(
        detect_request_surface_with_hint(&body, None),
        Some(ProviderSurface::OpenAIChat)
    );
}

#[test]
fn anthropic_hint_does_not_shadow_responses_or_invent_a_match() {
    assert_eq!(
        detect_request_surface_with_hint(&object(&["input", "messages"]), Some("anthropic")),
        Some(ProviderSurface::OpenAIResponses)
    );
    assert_eq!(detect_request_surface_with_hint(&object(&["model"]), Some("anthropic")), None);
}

#[test]
fn unknown_keys_and_non_objects_are_not_classified() {
    assert_eq!(detect_request_surface(&object(&["prompt"])), None);
    assert_eq!(detect_request_surface(&object(&[])), None);
    assert_eq!(detect_request_surface(&Json::Null), None);
    assert_eq!(detect_request_surface(&Json::Array(vec![object(&["messages"])])), None);
    assert_eq!(detect_request_surface(&Json::String("messages".to_string())), None);
    assert_eq!(detect_response_surface(&Json::Bool(true)), None);
}

#[test]
fn nested_keys_do_not_count() {
    let body = Json::Object(vec![("body".to_string(), object(&["messages"]))]);
    assert_eq!(detect_request_surface(&body), None);
}

#[test]
fn response_surfaces_classify_on_a_single_match() {
    assert_eq!(
        detect_response_surface(&object(&["id", "output"])),
        Some(ProviderSurface::OpenAIResponses)
    );
    assert_eq!(
        detect_response_surface(&object(&["id", "content", "role"])),
        Some(ProviderSurface::AnthropicMessages)
    );
    assert_eq!(
        detect_response_surface(&object(&["id", "choices"])),
        Some(ProviderSurface::OpenAIChat)
    );
}

#[test]
fn response_with_zero_or_several_matches_is_not_classified() {
    assert_eq!(detect_response_surface(&object(&["id"])), None);
    assert_eq!(detect_response_surface(&object(&["choices", "content"])), None);
    assert_eq!(detect_response_surface(&object(&["output", "choices", "content"])), None);
}

#[test]
fn normalize_request_annotates_detected_surface() {
    let request = LlmRequest { content: object(&["system", "messages"]) };
    let annotated = normalize_request(&request).unwrap();
    assert_eq!(annotated.surface, ProviderSurface::AnthropicMessages);
    assert_eq!(annotated.request.content, request.content);
    assert!(normalize_request(&LlmRequest { content: Json::Null }).is_none());
}

#[test]
fn normalize_request_ignores_hints() {
    let request = LlmRequest { content: object(&["messages"]) };
    assert_eq!(normalize_request(&request).unwrap().surface, ProviderSurface::OpenAIChat);
}

#[test]
fn normalize_response_agrees_with_detection() {
    let raw = Json::Object(vec![
        ("id".to_string(), Json::Number("12".to_string())),
        (
            "choices".to_string(),
            Json::Array(vec![Json::Null, Json::Bool(false)]),
        ),
    ]);
    let annotated = normalize_response(&raw).unwrap();
    assert_eq!(Some(annotated.surface), detect_response_surface(&raw));
    assert_eq!(annotated.raw, raw);
    assert!(normalize_response(&object(&["output", "content"])).is_none());
}

#[test]
fn duplicate_copies_nested_values() {
    let raw = Json::Object(vec![(
        "a".to_string(),
        Json::Array(vec![object(&["b"]), Json::Number("-1.5e3".to_string())]),
    )]);
    assert_eq!(raw.duplicate(), raw);
}

#[test]
fn key_lookup_and_string_equality() {
    let members = vec![("système".to_string(), Json::Null), ("b".to_string(), Json::Null)];
    assert!(members_contain_key(&members, "système"));
    assert!(!members_contain_key(&members, "systeme"));
    assert!(!members_contain_key(&members, ""));
    assert!(str_eq("", ""));
    assert!(!str_eq("ab", "a"));
}

#[test]
fn detection_ignores_member_order_and_values() {
    let a = Json::Object(vec![
        ("system".to_string(), Json::Null),
        ("messages".to_string(), Json::Array(vec![])),
    ]);
    let b = Json::Object(vec![
        ("messages".to_string(), Json::Number("3".to_string())),
        ("system".to_string(), Json::String("be brief".to_string())),
    ]);
    assert_eq!(detect_request_surface(&a), detect_request_surface(&b));
    assert_eq!(
        detect_request_surface_with_hint(&a, Some("anthropic")),
        detect_request_surface_with_hint(&b, Some("anthropic"))
    );
    assert_eq!(detect_response_surface(&a), detect_response_surface(&b));
}

#[test]
fn decoding_normalization_keeps_decoded_value_or_fails_open() {
    let chat = LlmRequest { content: object(&["messages"]) };
    let decoded = normalize_request_with(&chat, |surface: ProviderSurface, _req: &LlmRequest| {
        Ok::<ProviderSurface, String>(surface)
    });
    assert_eq!(decoded, Some(ProviderSurface::OpenAIChat));

    let failed = normalize_request_with(&chat, |_s: ProviderSurface, _req: &LlmRequest| {
        Err::<u8, String>("bad message list".to_string())
    });
    assert_eq!(failed, None);

    let unclassified = LlmRequest { content: object(&["prompt"]) };
    let never = normalize_request_with(&unclassified, |_s: ProviderSurface, _req: &LlmRequest| {
        Ok::<u8, String>(1)
    });
    assert_eq!(never, None);
}

#[test]
fn decoding_response_normalization_runs_only_on_a_single_match() {
    let raw = object(&["id", "content"]);
    let decoded = normalize_response_with(&raw, |surface: ProviderSurface, _raw: &Json| {
        Ok::<ProviderSurface, ()>(surface)
    });
    assert_eq!(decoded, Some(ProviderSurface::AnthropicMessages));
    let failed = normalize_response_with(&raw, |_s: ProviderSurface, _raw: &Json| Err::<u8, ()>(()));
    assert_eq!(failed, None);
    let ambiguous = normalize_response_with(&object(&["content", "choices"]), |_s: ProviderSurface, _raw: &Json| {
        Ok::<u8, ()>(1)
    });
    assert_eq!(ambiguous, None);
}
